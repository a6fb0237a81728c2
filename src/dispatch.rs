//! From an input line to the next step: expansion, splitting into words,
//! one level of alias resolution, and the choice of a built-in command or
//! an outside program.
use vstd::prelude::*;

use crate::action::{Action, ActionModel};
use crate::commands::{
    alias_command, echo_text, env_listing, export_command, handle_alias, handle_echo,
    handle_export, handle_history, handle_popd, history_listing, list_env, popd_command,
    system_info_command, toggle_system_info,
};
use crate::expand::{expand, expand_env_vars};
use crate::help::{handle_help, help_text};
use crate::shell::{Shell, ShellModel};
use crate::table::{lookup, Entries};
use crate::text::{copy_of, same_text, views};
use crate::tokenize::{tokenize, tokenize_command};

verus! {

/// The commands that the shell carries out itself.
#[derive(Clone, Copy, Debug, PartialEq, Eq, Structural)]
pub enum Builtin {
    SystemInfo,
    Echo,
    Pwd,
    Cd,
    Ls,
    Mkdir,
    Rm,
    Touch,
    Alias,
    Export,
    Env,
    Pushd,
    Popd,
    History,
    Jobs,
    Info,
    Help,
    SetDefault,
    RemoveDefault,
}

/// The built-in command that a word names exactly, if any.
pub open spec fn verb_of(w: Seq<char>) -> Option<Builtin> {
    if w == "systeminfo"@ {
        Some(Builtin::SystemInfo)
    } else if w == "echo"@ {
        Some(Builtin::Echo)
    } else if w == "pwd"@ {
        Some(Builtin::Pwd)
    } else if w == "cd"@ {
        Some(Builtin::Cd)
    } else if w == "ls"@ {
        Some(Builtin::Ls)
    } else if w == "mkdir"@ {
        Some(Builtin::Mkdir)
    } else if w == "rm"@ {
        Some(Builtin::Rm)
    } else if w == "touch"@ {
        Some(Builtin::Touch)
    } else if w == "alias"@ {
        Some(Builtin::Alias)
    } else if w == "export"@ {
        Some(Builtin::Export)
    } else if w == "env"@ {
        Some(Builtin::Env)
    } else if w == "pushd"@ {
        Some(Builtin::Pushd)
    } else if w == "popd"@ {
        Some(Builtin::Popd)
    } else if w == "history"@ {
        Some(Builtin::History)
    } else if w == "jobs"@ {
        Some(Builtin::Jobs)
    } else if w == "info"@ {
        Some(Builtin::Info)
    } else if w == "help"@ {
        Some(Builtin::Help)
    } else if w == "set-default"@ {
        Some(Builtin::SetDefault)
    } else if w == "remove-default"@ {
        Some(Builtin::RemoveDefault)
    } else {
        None
    }
}

/// The words of a line after alias resolution: when the first word names
/// an alias, the words of the alias's command line replace all of them.
/// The result is not looked up again.
pub open spec fn resolve(tokens: Seq<Seq<char>>, aliases: Entries) -> Seq<Seq<char>> {
    if tokens.len() > 0 {
        match lookup(aliases, tokens[0]) {
            Some(a) => tokenize(a),
            None => tokens,
        }
    } else {
        tokens
    }
}

/// The words that a line comes to: expanded, split, then resolved.
pub open spec fn words_of(line: Seq<char>, m: ShellModel) -> Seq<Seq<char>> {
    resolve(tokenize(expand(line, m.env)), m.aliases)
}

/// A command that needs a first word: `act` on it, or `missing` when there
/// is none. The session is left as it is.
pub open spec fn with_first(
    args: Seq<Seq<char>>,
    m: ShellModel,
    act: spec_fn(Seq<char>) -> ActionModel,
    missing: ActionModel,
) -> (ActionModel, ShellModel) {
    if args.len() > 0 {
        (act(args[0]), m)
    } else {
        (missing, m)
    }
}

/// What a built-in command asks for and the session after it.
pub open spec fn builtin_step(b: Builtin, args: Seq<Seq<char>>, m: ShellModel) -> (
    ActionModel,
    ShellModel,
) {
    match b {
        Builtin::SystemInfo => system_info_command(args, m),
        Builtin::Echo => (ActionModel::Show(echo_text(args, m.env)), m),
        Builtin::Pwd => (ActionModel::ShowCurrentDir, m),
        Builtin::Cd => with_first(
            args,
            m,
            |p: Seq<char>| ActionModel::ChangeDir(p),
            ActionModel::Fail("[cd: missing argument]"@),
        ),
        Builtin::Ls => (
            ActionModel::ListDir(
                if args.len() > 0 {
                    args[0]
                } else {
                    "."@
                },
            ),
            m,
        ),
        Builtin::Mkdir => with_first(
            args,
            m,
            |p: Seq<char>| ActionModel::MakeDir(p),
            ActionModel::Fail("[mkdir: missing argument]"@),
        ),
        Builtin::Rm => with_first(
            args,
            m,
            |p: Seq<char>| ActionModel::Remove(p),
            ActionModel::Fail("[rm: missing argument]"@),
        ),
        Builtin::Touch => with_first(
            args,
            m,
            |p: Seq<char>| ActionModel::Touch(p),
            ActionModel::Fail("touch: missing argument"@),
        ),
        Builtin::Alias => {
            let (text, aliases) = alias_command(args, m.aliases);
            (ActionModel::Show(text), ShellModel { aliases, ..m })
        },
        Builtin::Export => {
            let (text, env) = export_command(args, m.env);
            (ActionModel::Show(text), ShellModel { env, ..m })
        },
        Builtin::Env => (ActionModel::Show(env_listing(m.env)), m),
        Builtin::Pushd => with_first(
            args,
            m,
            |p: Seq<char>| ActionModel::PushDir(p),
            ActionModel::Show("pushd: missing directory argument"@),
        ),
        Builtin::Popd => popd_command(m),
        Builtin::History => (ActionModel::Show(history_listing(m.history)), m),
        Builtin::Jobs => (ActionModel::ListProcesses, m),
        Builtin::Info => (ActionModel::ShowSystemInfo, m),
        Builtin::Help => (ActionModel::Show(help_text(args)), m),
        Builtin::SetDefault => (ActionModel::SetDefaultShell, m),
        Builtin::RemoveDefault => (ActionModel::RemoveDefaultShell, m),
    }
}

/// What the words of a line ask for and the session after them: a built-in
/// command named by the first word, else the program it names.
pub open spec fn dispatch(words: Seq<Seq<char>>, m: ShellModel) -> (ActionModel, ShellModel) {
    if words.len() == 0 {
        (ActionModel::Show("No command entered"@), m)
    } else {
        match verb_of(words[0]) {
            Some(b) => builtin_step(b, words.drop_first(), m),
            None => (ActionModel::Run(words), m),
        }
    }
}

/// What a line asks for and the session after it.
pub open spec fn interpret(line: Seq<char>, m: ShellModel) -> (ActionModel, ShellModel) {
    dispatch(words_of(line, m), m)
}

/// The built-in command that `word` names (see `verb_of`).
pub fn builtin_of(word: &str) -> (r: Option<Builtin>)
    ensures
        r == verb_of(word@),
{
    if same_text(word, "systeminfo") {
        Some(Builtin::SystemInfo)
    } else if same_text(word, "echo") {
        Some(Builtin::Echo)
    } else if same_text(word, "pwd") {
        Some(Builtin::Pwd)
    } else if same_text(word, "cd") {
        Some(Builtin::Cd)
    } else if same_text(word, "ls") {
        Some(Builtin::Ls)
    } else if same_text(word, "mkdir") {
        Some(Builtin::Mkdir)
    } else if same_text(word, "rm") {
        Some(Builtin::Rm)
    } else if same_text(word, "touch") {
        Some(Builtin::Touch)
    } else if same_text(word, "alias") {
        Some(Builtin::Alias)
    } else if same_text(word, "export") {
        Some(Builtin::Export)
    } else if same_text(word, "env") {
        Some(Builtin::Env)
    } else if same_text(word, "pushd") {
        Some(Builtin::Pushd)
    } else if same_text(word, "popd") {
        Some(Builtin::Popd)
    } else if same_text(word, "history") {
        Some(Builtin::History)
    } else if same_text(word, "jobs") {
        Some(Builtin::Jobs)
    } else if same_text(word, "info") {
        Some(Builtin::Info)
    } else if same_text(word, "help") {
        Some(Builtin::Help)
    } else if same_text(word, "set-default") {
        Some(Builtin::SetDefault)
    } else if same_text(word, "remove-default") {
        Some(Builtin::RemoveDefault)
    } else {
        None
    }
}

/// The words of `v` from `from` on.
fn words_from(v: &Vec<String>, from: usize) -> (r: Vec<String>)
    requires
        from <= v@.len(),
    ensures
        views(r@) == views(v@).skip(from as int),
{
    let mut r: Vec<String> = Vec::new();
    let mut i: usize = from;
    while i < v.len()
        invariant
            from <= i <= v@.len(),
            views(r@) == views(v@).subrange(from as int, i as int),
        decreases v.len() - i,
    {
        let ghost r0 = r@;
        r.push(v[i].clone());
        assert(views(r@) =~= views(r0).push(v@[i as int]@));
        assert(views(v@).subrange(from as int, i + 1) =~= views(v@).subrange(from as int, i as int).push(v@[i as int]@));
        i = i + 1;
    }
    assert(views(v@).subrange(from as int, v@.len() as int) =~= views(v@).skip(from as int));
    r
}

/// Carries out a built-in command with the words after its name (see
/// `builtin_step`).
pub fn run_builtin(b: Builtin, args: &Vec<String>, shell: &mut Shell) -> (r: Action)
    requires
        old(shell).wf(),
    ensures
        final(shell).wf(),
        (r@, final(shell)@) == builtin_step(b, views(args@), old(shell)@),
{
    let first = if args.len() > 0 {
        Some(args[0].clone())
    } else {
        None
    };
    proof {
        if args.len() > 0 {
            assert(views(args@)[0] == args@[0]@);
        }
    }
    match b {
        Builtin::SystemInfo => toggle_system_info(args, shell),
        Builtin::Echo => Action::Show(handle_echo(args, shell)),
        Builtin::Pwd => Action::ShowCurrentDir,
        Builtin::Cd => match first {
            Some(p) => Action::ChangeDir(p),
            None => Action::Fail(copy_of("[cd: missing argument]")),
        },
        Builtin::Ls => match first {
            Some(p) => Action::ListDir(p),
            None => Action::ListDir(copy_of(".")),
        },
        Builtin::Mkdir => match first {
            Some(p) => Action::MakeDir(p),
            None => Action::Fail(copy_of("[mkdir: missing argument]")),
        },
        Builtin::Rm => match first {
            Some(p) => Action::Remove(p),
            None => Action::Fail(copy_of("[rm: missing argument]")),
        },
        Builtin::Touch => match first {
            Some(p) => Action::Touch(p),
            None => Action::Fail(copy_of("touch: missing argument")),
        },
        Builtin::Alias => Action::Show(handle_alias(args, shell)),
        Builtin::Export => Action::Show(handle_export(args, shell)),
        Builtin::Env => Action::Show(list_env(shell)),
        Builtin::Pushd => match first {
            Some(p) => Action::PushDir(p),
            None => Action::Show(copy_of("pushd: missing directory argument")),
        },
        Builtin::Popd => handle_popd(shell),
        Builtin::History => Action::Show(handle_history(shell)),
        Builtin::Jobs => Action::ListProcesses,
        Builtin::Info => Action::ShowSystemInfo,
        Builtin::Help => Action::Show(handle_help(args)),
        Builtin::SetDefault => Action::SetDefaultShell,
        Builtin::RemoveDefault => Action::RemoveDefaultShell,
    }
}

/// Carries out the words of a line (see `dispatch`).
pub fn dispatch_words(words: Vec<String>, shell: &mut Shell) -> (r: Action)
    requires
        old(shell).wf(),
    ensures
        final(shell).wf(),
        (r@, final(shell)@) == dispatch(views(words@), old(shell)@),
{
    if words.len() == 0 {
        return Action::Show(copy_of("No command entered"));
    }
    proof {
        assert(views(words@)[0] == words@[0]@);
    }
    match builtin_of(words[0].as_str()) {
        Some(b) => {
            let args = words_from(&words, 1);
            assert(views(words@).skip(1) =~= views(words@).drop_first());
            run_builtin(b, &args, shell)
        },
        None => Action::Run(words),
    }
}

/// Interprets one input line: expands the variables in it, splits it into
/// words, resolves an alias named by the first word (once), then carries
/// out the built-in command it names or asks for the program to be run.
pub fn execute_command_internal(command: &str, shell: &mut Shell) -> (r: Action)
    requires
        old(shell).wf(),
    ensures
        final(shell).wf(),
        (r@, final(shell)@) == interpret(command@, old(shell)@),
{
    let expanded = expand_env_vars(command, shell);
    let tokens = tokenize_command(expanded.as_str());
    let words = if tokens.len() > 0 {
        proof {
            assert(views(tokens@)[0] == tokens@[0]@);
        }
        match shell.get_alias(tokens[0].as_str()) {
            Some(a) => tokenize_command(a.as_str()),
            None => tokens,
        }
    } else {
        tokens
    };
    dispatch_words(words, shell)
}

} // verus!
