//! The texts that report on work done outside the session: the file system,
//! other programs and the login shell. Each function takes the outcome of
//! that work as plain values.
use vstd::prelude::*;

use crate::text::{
    append_str, chars_of, contains, copy_of, decimal, join, join_strings, push_char,
    push_decimal, views,
};

verus! {

/// What to show, and what to record in the log when the work failed.
pub struct Report {
    pub text: String,
    pub log: Option<String>,
}

/// A report on a success: the text alone.
pub open spec fn succeeded(r: Report, text: Seq<char>) -> bool {
    r.text@ == text && r.log is None
}

/// A report on a failure: `message` in brackets, and `message` in the log.
pub open spec fn failed(r: Report, message: Seq<char>) -> bool {
    r.text@ == seq!['['] + message + seq![']'] && r.log is Some && r.log->0@ == message
}

/// A report on a failure shown without brackets.
pub open spec fn failed_plain(r: Report, message: Seq<char>) -> bool {
    r.text@ == message && r.log is Some && r.log->0@ == message
}

fn bracketed(head: &str, detail: &str) -> (r: Report)
    ensures
        failed(r, head@ + detail@),
{
    let mut message = copy_of(head);
    append_str(&mut message, detail);
    let mut text = String::new();
    push_char(&mut text, '[');
    append_str(&mut text, message.as_str());
    push_char(&mut text, ']');
    assert(text@ =~= seq!['['] + (head@ + detail@) + seq![']']);
    Report { text, log: Some(message) }
}

/// `cd`: the report on changing to `path`, given the error if it failed.
pub fn change_directory(path: &str, outcome: &Result<(), String>) -> (r: Report)
    ensures
        match outcome {
            Ok(_) => succeeded(r, "[Changed to directory: "@ + path@ + "]"@),
            Err(e) => failed(r, "Failed to change directory: "@ + e@),
        },
{
    match outcome {
        Ok(_) => {
            let mut text = copy_of("[Changed to directory: ");
            append_str(&mut text, path);
            append_str(&mut text, "]");
            Report { text, log: None }
        },
        Err(e) => bracketed("Failed to change directory: ", e.as_str()),
    }
}

/// `mkdir`: the report on creating the directory `path`.
pub fn create_directory(path: &str, outcome: &Result<(), String>) -> (r: Report)
    ensures
        match outcome {
            Ok(_) => succeeded(r, "[Directory created: "@ + path@ + "]"@),
            Err(e) => failed(r, "Failed to create directory: "@ + e@),
        },
{
    match outcome {
        Ok(_) => {
            let mut text = copy_of("[Directory created: ");
            append_str(&mut text, path);
            append_str(&mut text, "]");
            Report { text, log: None }
        },
        Err(e) => bracketed("Failed to create directory: ", e.as_str()),
    }
}

/// `rm`: the report on removing `path`, a directory with all it holds when
/// `is_dir`, else a file.
pub fn remove_file_or_directory(path: &str, is_dir: bool, outcome: &Result<(), String>) -> (r:
    Report)
    ensures
        match (is_dir, outcome) {
            (true, Ok(_)) => succeeded(r, "[Directory removed: "@ + path@ + "]"@),
            (true, Err(e)) => failed(r, "Failed to remove directory: "@ + e@),
            (false, Ok(_)) => succeeded(r, "[File removed: "@ + path@ + "]"@),
            (false, Err(e)) => failed(r, "Failed to remove file: "@ + e@),
        },
{
    match outcome {
        Ok(_) => {
            let mut text = if is_dir {
                copy_of("[Directory removed: ")
            } else {
                copy_of("[File removed: ")
            };
            append_str(&mut text, path);
            append_str(&mut text, "]");
            Report { text, log: None }
        },
        Err(e) => {
            if is_dir {
                bracketed("Failed to remove directory: ", e.as_str())
            } else {
                bracketed("Failed to remove file: ", e.as_str())
            }
        },
    }
}

/// `touch`: the report on creating the empty file `path`.
pub fn create_file(path: &str, outcome: &Result<(), String>) -> (r: Report)
    ensures
        match outcome {
            Ok(_) => succeeded(r, "File created: "@ + path@),
            Err(e) => failed_plain(r, "Failed to create file: "@ + e@),
        },
{
    match outcome {
        Ok(_) => {
            let mut text = copy_of("File created: ");
            append_str(&mut text, path);
            Report { text, log: None }
        },
        Err(e) => {
            let mut text = copy_of("Failed to create file: ");
            append_str(&mut text, e.as_str());
            let log = copy_of(text.as_str());
            Report { text, log: Some(log) }
        },
    }
}

/// One entry of a directory: its name, and whether it is a directory.
pub struct DirEntry {
    pub name: String,
    pub is_dir: bool,
}

/// How an entry is listed: a directory with a `/` after its name.
pub open spec fn entry_text(e: DirEntry) -> Seq<char> {
    if e.is_dir {
        e.name@.push('/')
    } else {
        e.name@
    }
}

/// `ls`: the entries, two spaces between each two.
pub open spec fn listing_text(entries: Seq<DirEntry>) -> Seq<char> {
    join(entries.map_values(|e: DirEntry| entry_text(e)), seq![' ', ' '])
}

/// `ls`: the report on reading a directory.
pub fn list_directory(outcome: &Result<Vec<DirEntry>, String>) -> (r: Report)
    ensures
        match outcome {
            Ok(entries) => succeeded(r, listing_text(entries@)),
            Err(e) => failed(r, "Failed to list directory: "@ + e@),
        },
{
    match outcome {
        Ok(entries) => {
            let ghost names = entries@.map_values(|e: DirEntry| entry_text(e));
            let mut out: Vec<String> = Vec::new();
            let mut i: usize = 0;
            while i < entries.len()
                invariant
                    i <= entries@.len(),
                    names == entries@.map_values(|e: DirEntry| entry_text(e)),
                    views(out@) == names.take(i as int),
                decreases entries.len() - i,
            {
                let ghost o0 = out@;
                let mut s = copy_of(entries[i].name.as_str());
                if entries[i].is_dir {
                    push_char(&mut s, '/');
                }
                out.push(s);
                assert(names[i as int] == s@);
                assert(views(out@) =~= views(o0).push(s@));
                assert(names.take(i + 1) =~= names.take(i as int).push(names[i as int]));
                i = i + 1;
            }
            assert(names.take(entries@.len() as int) =~= names);
            let text = join_strings(&out, "  ");
            proof {
                reveal_strlit("  ");
                assert("  "@ =~= seq![' ', ' ']);
            }
            Report { text, log: None }
        },
        Err(e) => bracketed("Failed to list directory: ", e.as_str()),
    }
}

/// `pwd`: the working directory, or a note that it could not be read.
pub fn current_directory(outcome: &Option<String>) -> (r: String)
    ensures
        match outcome {
            Some(p) => r@ == p@,
            None => r@ == "Failed to get current directory"@,
        },
{
    match outcome {
        Some(p) => copy_of(p.as_str()),
        None => copy_of("Failed to get current directory"),
    }
}

/// What a program that ran left behind.
pub struct ProgramOutput {
    pub success: bool,
    pub stdout: String,
    pub stderr: String,
}

/// An outside program: its standard output when it succeeded, its standard
/// error otherwise, or why it could not be started.
pub fn execute_external_command(outcome: &Result<ProgramOutput, String>) -> (r: String)
    ensures
        match outcome {
            Ok(o) => r@ == if o.success {
                o.stdout@
            } else {
                o.stderr@
            },
            Err(e) => r@ == "Failed to execute command: "@ + e@,
        },
{
    match outcome {
        Ok(o) => {
            if o.success {
                copy_of(o.stdout.as_str())
            } else {
                copy_of(o.stderr.as_str())
            }
        },
        Err(e) => {
            let mut r = copy_of("Failed to execute command: ");
            append_str(&mut r, e.as_str());
            r
        },
    }
}

/// `jobs`: the process list, or a note that it could not be had.
pub fn handle_jobs(outcome: &Option<String>) -> (r: String)
    ensures
        match outcome {
            Some(p) => r@ == p@,
            None => r@ == "Failed to get process list"@,
        },
{
    match outcome {
        Some(p) => copy_of(p.as_str()),
        None => copy_of("Failed to get process list"),
    }
}

/// Whether the list of login shells must be given `path`: it must when the
/// text of the list does not hold it anywhere.
pub fn needs_shells_entry(shells: &str, path: &str) -> (r: bool)
    ensures
        r == !contains(shells@, path@),
{
    let s = chars_of(shells);
    let p = chars_of(path);
    let n = s.len();
    let m = p.len();
    if m > n {
        return true;
    }
    let mut i: usize = 0;
    while i <= n - m
        invariant
            s@ == shells@,
            p@ == path@,
            n == s@.len(),
            m == p@.len(),
            m <= n,
            i <= n - m + 1,
            forall|k: int| 0 <= k < i ==> #[trigger] s@.subrange(k, k + m) != p@,
        decreases n - m + 1 - i,
    {
        let mut j: usize = 0;
        let mut same = true;
        while j < m
            invariant
                n == s@.len(),
                m == p@.len(),
                i + m <= n,
                j <= m,
                same == forall|q: int| 0 <= q < j ==> s@[i + q] == p@[q],
            decreases m - j,
        {
            if s[i + j] != p[j] {
                same = false;
            }
            j = j + 1;
        }
        if same {
            assert(s@.subrange(i as int, i + m) =~= p@);
            return false;
        }
        proof {
            let k = choose|q: int| 0 <= q < m && s@[i + q] != p@[q];
            assert(s@.subrange(i as int, i + m)[k] != p@[k]);
        }
        i = i + 1;
    }
    true
}

/// The command that adds `path` to the list of login shells.
pub fn shells_entry_command(path: &str) -> (r: String)
    ensures
        r@ == "echo '"@ + path@ + "' >> /etc/shells"@,
{
    let mut r = copy_of("echo '");
    append_str(&mut r, path);
    append_str(&mut r, "' >> /etc/shells");
    r
}

/// `set-default`, when the list of login shells could not be given this
/// shell.
pub fn shells_entry_failed() -> (r: String)
    ensures
        r@ == "[Failed to add Batcave to /etc/shells]"@,
{
    copy_of("[Failed to add Batcave to /etc/shells]")
}

/// `set-default`: the report on changing the login shell to this one.
pub fn set_as_default_shell(outcome: &Result<(), String>) -> (r: String)
    ensures
        match outcome {
            Ok(_) => r@
                == "[Batcave set as default shell. Please log out and back in for changes to take effect]"@,
            Err(e) => r@ == "[Failed to set Batcave as default shell: "@ + e@ + "]"@,
        },
{
    match outcome {
        Ok(_) => copy_of(
            "[Batcave set as default shell. Please log out and back in for changes to take effect]",
        ),
        Err(e) => {
            let mut r = copy_of("[Failed to set Batcave as default shell: ");
            append_str(&mut r, e.as_str());
            append_str(&mut r, "]");
            r
        },
    }
}

/// `remove-default`: the report on changing the login shell back to bash.
pub fn remove_default_shell(outcome: &Result<(), String>) -> (r: String)
    ensures
        match outcome {
            Ok(_) => r@
                == "[Default shell reset to bash. Please log out and back in for changes to take effect]"@,
            Err(e) => r@ == "[Failed to reset default shell: "@ + e@ + "]"@,
        },
{
    match outcome {
        Ok(_) => copy_of(
            "[Default shell reset to bash. Please log out and back in for changes to take effect]",
        ),
        Err(e) => {
            let mut r = copy_of("[Failed to reset default shell: ");
            append_str(&mut r, e.as_str());
            append_str(&mut r, "]");
            r
        },
    }
}

/// The note shown after a command that took longer than a second: its
/// duration in seconds with two decimals, rounded to the nearest hundredth.
pub open spec fn timing_text(elapsed_ms: nat) -> Seq<char> {
    let cs = (elapsed_ms + 5) / 10;
    "Command took "@ + decimal(cs / 100) + seq!['.'] + (if cs % 100 < 10 {
        seq!['0']
    } else {
        Seq::empty()
    }) + decimal(cs % 100) + seq!['s']
}

/// The note on a command's duration, in milliseconds, if it took longer
/// than a second.
pub fn timing_notice(elapsed_ms: u64) -> (r: Option<String>)
    ensures
        elapsed_ms <= 1000 ==> r is None,
        elapsed_ms > 1000 ==> r is Some && r->0@ == timing_text(elapsed_ms as nat),
{
    if elapsed_ms <= 1000 {
        return None;
    }
    let cs: u64 = elapsed_ms / 10 + if elapsed_ms % 10 >= 5 {
        1
    } else {
        0
    };
    assert(cs == (elapsed_ms + 5) / 10) by (nonlinear_arith)
        requires
            cs == elapsed_ms / 10 + if elapsed_ms % 10 >= 5 {
                1u64
            } else {
                0u64
            },
    ;
    let mut r = copy_of("Command took ");
    push_decimal(&mut r, cs / 100);
    push_char(&mut r, '.');
    if cs % 100 < 10 {
        push_char(&mut r, '0');
    }
    push_decimal(&mut r, cs % 100);
    push_char(&mut r, 's');
    assert(r@ =~= timing_text(elapsed_ms as nat));
    Some(r)
}

} // verus!
