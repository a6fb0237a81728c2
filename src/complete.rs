//! Completion candidates for a partly typed word, and the first look at an
//! input line.
use vstd::prelude::*;

use crate::shell::{Shell, ShellModel};
use crate::table::{Entries, Table};
use crate::text::{
    append_str, chars_of, copy_of, has_prefix, push_char, same_text, str_starts_with, trim,
    trimmed, views, Strip,
};

verus! {

/// The built-in commands offered for completion: every word that names one.
pub open spec fn completion_commands() -> Seq<Seq<char>> {
    seq![
        "echo"@,
        "pwd"@,
        "cd"@,
        "ls"@,
        "mkdir"@,
        "rm"@,
        "touch"@,
        "alias"@,
        "export"@,
        "env"@,
        "systeminfo"@,
        "pushd"@,
        "popd"@,
        "history"@,
        "jobs"@,
        "info"@,
        "help"@,
        "set-default"@,
        "remove-default"@,
    ]
}

/// The names of a table, in order.
pub open spec fn names(t: Entries) -> Seq<Seq<char>> {
    t.map_values(|e: (Seq<char>, Seq<char>)| e.0)
}

/// The words of `ws` that start with `p`, in order.
pub open spec fn prefixed(ws: Seq<Seq<char>>, p: Seq<char>) -> Seq<Seq<char>> {
    ws.filter(|w: Seq<char>| has_prefix(w, p))
}

/// `$` before a name.
pub open spec fn dollar(ws: Seq<Seq<char>>) -> Seq<Seq<char>> {
    ws.map_values(|w: Seq<char>| seq!['$'] + w)
}

/// The candidates for `input`: the built-in commands, the aliases, the
/// environment variables (with `$` before each) and the directory entries
/// that start with it, in that order.
pub open spec fn completions(input: Seq<char>, m: ShellModel, entries: Seq<Seq<char>>) -> Seq<
    Seq<char>,
> {
    prefixed(completion_commands(), input) + prefixed(names(m.aliases), input) + dollar(
        prefixed(names(m.env), input),
    ) + prefixed(entries, input)
}

/// Appends to `out` the words of `ws` that start with `input`, each with
/// `$` before it when `sigil`.
fn push_prefixed(out: &mut Vec<String>, ws: &Vec<String>, input: &str, sigil: bool)
    ensures
        sigil ==> views(final(out)@) == views(old(out)@) + dollar(prefixed(views(ws@), input@)),
        !sigil ==> views(final(out)@) == views(old(out)@) + prefixed(views(ws@), input@),
{
    let ghost pred = |w: Seq<char>| has_prefix(w, input@);
    let ghost mark = |w: Seq<char>|
        if sigil {
            seq!['$'] + w
        } else {
            w
        };
    let mut i: usize = 0;
    while i < ws.len()
        invariant
            i <= ws@.len(),
            pred == (|w: Seq<char>| has_prefix(w, input@)),
            mark == (|w: Seq<char>|
                if sigil {
                    seq!['$'] + w
                } else {
                    w
                }),
            views(out@) == views(old(out)@) + views(ws@).take(i as int).filter(pred).map_values(mark),
        decreases ws.len() - i,
    {
        let ghost o0 = out@;
        let ghost pre = views(ws@).take(i as int);
        let ghost next = views(ws@).take(i + 1);
        assert(next.drop_last() =~= pre);
        assert(next.last() == ws@[i as int]@);
        proof {
            reveal(Seq::filter);
        }
        if str_starts_with(ws[i].as_str(), input) {
            let mut s = String::new();
            if sigil {
                push_char(&mut s, '$');
            }
            append_str(&mut s, ws[i].as_str());
            out.push(s);
            assert(next.filter(pred) == pre.filter(pred).push(ws@[i as int]@));
            assert(s@ =~= mark(ws@[i as int]@));
            assert(views(out@) =~= views(o0).push(s@));
            assert(next.filter(pred).map_values(mark) =~= pre.filter(pred).map_values(mark).push(
                s@,
            ));
        } else {
            assert(next.filter(pred) == pre.filter(pred));
        }
        i = i + 1;
    }
    assert(views(ws@).take(ws@.len() as int) =~= views(ws@));
    proof {
        let f = views(ws@).filter(pred);
        if sigil {
            assert(f.map_values(mark) =~= dollar(f));
        } else {
            assert(f.map_values(mark) =~= f);
        }
    }
}

/// The names of a table.
fn names_of(t: &Table) -> (r: Vec<String>)
    ensures
        views(r@) == names(t@),
{
    let mut r: Vec<String> = Vec::new();
    let mut i: usize = 0;
    while i < t.len()
        invariant
            i <= t@.len(),
            views(r@) == names(t@).take(i as int),
        decreases t@.len() - i,
    {
        let ghost r0 = r@;
        let s = copy_of(t.name_at(i).as_str());
        r.push(s);
        assert(views(r@) =~= views(r0).push(s@));
        assert(names(t@).take(i + 1) =~= names(t@).take(i as int).push(t@[i as int].0));
        i = i + 1;
    }
    assert(names(t@).take(t@.len() as int) =~= names(t@));
    r
}

/// The completion candidates for `input` (see `completions`), given the
/// entries of the working directory.
pub fn autocomplete(input: &str, shell: &Shell, entries: &Vec<String>) -> (r: Vec<String>)
    ensures
        views(r@) == completions(input@, shell@, views(entries@)),
{
    let mut commands: Vec<String> = Vec::new();
    commands.push(copy_of("echo"));
    commands.push(copy_of("pwd"));
    commands.push(copy_of("cd"));
    commands.push(copy_of("ls"));
    commands.push(copy_of("mkdir"));
    commands.push(copy_of("rm"));
    commands.push(copy_of("touch"));
    commands.push(copy_of("alias"));
    commands.push(copy_of("export"));
    commands.push(copy_of("env"));
    commands.push(copy_of("systeminfo"));
    commands.push(copy_of("pushd"));
    commands.push(copy_of("popd"));
    commands.push(copy_of("history"));
    commands.push(copy_of("jobs"));
    commands.push(copy_of("info"));
    commands.push(copy_of("help"));
    commands.push(copy_of("set-default"));
    commands.push(copy_of("remove-default"));
    assert(views(commands@) =~= completion_commands());
    let aliases = names_of(shell.aliases());
    let vars = names_of(shell.env_vars());
    let mut out: Vec<String> = Vec::new();
    assert(views(out@) =~= Seq::<Seq<char>>::empty());
    push_prefixed(&mut out, &commands, input, false);
    push_prefixed(&mut out, &aliases, input, false);
    push_prefixed(&mut out, &vars, input, true);
    push_prefixed(&mut out, entries, input, false);
    assert(views(out@) =~= completions(input@, shell@, views(entries@)));
    out
}

/// What an input line is.
pub enum InputLine {
    /// Nothing but white space.
    Blank,
    /// `exit`, which ends the session.
    Exit,
    /// A command, without the white space around it.
    Command(String),
}

/// An input line: trimmed, it is empty, `exit`, or a command.
pub fn classify_line(line: &str) -> (r: InputLine)
    ensures
        trim(line@, Strip::Space).len() == 0 ==> r is Blank,
        trim(line@, Strip::Space) == "exit"@ ==> r is Exit,
        trim(line@, Strip::Space).len() > 0 && trim(line@, Strip::Space) != "exit"@ ==> r is Command
            && r->Command_0@ == trim(line@, Strip::Space),
{
    proof {
        reveal_strlit("exit");
    }
    let t = trimmed(line, &Strip::Space);
    let tv = chars_of(t.as_str());
    if tv.len() == 0 {
        InputLine::Blank
    } else if same_text(t.as_str(), "exit") {
        InputLine::Exit
    } else {
        InputLine::Command(t)
    }
}

} // verus!
