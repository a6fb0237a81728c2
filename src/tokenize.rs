//! Splitting a command line into words, with double quotes and backslash
//! escapes.
use vstd::prelude::*;

use crate::text::{chars_of, string_of, views};

verus! {

/// Where the scan stands: the words so far, the word being built, and
/// whether a quote is open or an escape pending.
pub struct Scan {
    pub words: Seq<Seq<char>>,
    pub current: Seq<char>,
    pub quoted: bool,
    pub escaped: bool,
}

pub open spec fn scan_start() -> Scan {
    Scan { words: Seq::empty(), current: Seq::empty(), quoted: false, escaped: false }
}

/// One character of the scan.
pub open spec fn scan_step(st: Scan, c: char) -> Scan {
    if st.escaped {
        if c == '"' {
            Scan { current: st.current.push('"'), escaped: false, ..st }
        } else {
            Scan { current: st.current.push('\\').push(c), escaped: false, ..st }
        }
    } else if c == '\\' {
        Scan { escaped: true, ..st }
    } else if c == '"' {
        Scan { quoted: !st.quoted, ..st }
    } else if c == ' ' && !st.quoted {
        if st.current.len() > 0 {
            Scan { words: st.words.push(st.current), current: Seq::empty(), ..st }
        } else {
            st
        }
    } else {
        Scan { current: st.current.push(c), ..st }
    }
}

/// The scan after all characters of `s`, left to right.
pub open spec fn scan(s: Seq<char>) -> Scan
    decreases s.len(),
{
    if s.len() == 0 {
        scan_start()
    } else {
        scan_step(scan(s.drop_last()), s.last())
    }
}

/// The words of `s`: those the scan ended, then the one in progress if it
/// is not empty. An open quote or a trailing backslash is no error.
pub open spec fn tokenize(s: Seq<char>) -> Seq<Seq<char>> {
    let st = scan(s);
    if st.current.len() > 0 {
        st.words.push(st.current)
    } else {
        st.words
    }
}

/// Splits `command` into its words (see `tokenize`).
pub fn tokenize_command(command: &str) -> (r: Vec<String>)
    ensures
        views(r@) == tokenize(command@),
{
    let cs = chars_of(command);
    let mut words: Vec<String> = Vec::new();
    let mut current: Vec<char> = Vec::new();
    let mut quoted = false;
    let mut escaped = false;
    let mut i: usize = 0;
    while i < cs.len()
        invariant
            i <= cs@.len(),
            cs@ == command@,
            ({
                let st = scan(cs@.subrange(0, i as int));
                &&& views(words@) == st.words
                &&& current@ == st.current
                &&& quoted == st.quoted
                &&& escaped == st.escaped
            }),
        decreases cs.len() - i,
    {
        let c = cs[i];
        let ghost before = words@;
        assert(cs@.subrange(0, i + 1).drop_last() =~= cs@.subrange(0, i as int));
        if escaped {
            if c == '"' {
                current.push('"');
            } else {
                current.push('\\');
                current.push(c);
            }
            escaped = false;
        } else if c == '\\' {
            escaped = true;
        } else if c == '"' {
            quoted = !quoted;
        } else if c == ' ' && !quoted {
            if current.len() > 0 {
                let w = string_of(&current);
                words.push(w);
                current = Vec::new();
                assert(views(words@) =~= views(before).push(w@));
            }
        } else {
            current.push(c);
        }
        i = i + 1;
    }
    assert(cs@.subrange(0, cs@.len() as int) =~= cs@);
    if current.len() > 0 {
        let ghost before = words@;
        let w = string_of(&current);
        words.push(w);
        assert(views(words@) =~= views(before).push(w@));
    }
    words
}

} // verus!
