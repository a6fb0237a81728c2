//! The built-in commands that only read or change the session: `echo`,
//! `alias`, `export`, `env`, `history`, `popd` and `systeminfo`.
use vstd::prelude::*;

use crate::action::{Action, ActionModel};
use crate::expand::{expand, expand_with};
use crate::shell::{flag_text, shows_system_info, Shell, ShellModel, SHOW_SYSTEM_INFO};
use crate::table::{assign, Entries, Table};
use crate::text::{
    append_str, chars_of, copy_of, decimal, find_char, first_index, join, join_strings,
    pad_left, padded_decimal, push_char, same_text, string_of_range, trim, trimmed, unquote,
    unquoted, views, Strip,
};

verus! {

/// `echo`: each word expanded again, joined by single spaces.
pub open spec fn echo_text(args: Seq<Seq<char>>, env: Entries) -> Seq<char> {
    join(args.map_values(|a: Seq<char>| expand(a, env)), seq![' '])
}

/// One line of the alias listing: `name='command'`.
pub open spec fn alias_line(e: (Seq<char>, Seq<char>)) -> Seq<char> {
    e.0 + seq!['=', '\''] + e.1 + seq!['\'']
}

/// The alias listing, one alias a line.
pub open spec fn alias_listing(t: Entries) -> Seq<char> {
    join(t.map_values(|e: (Seq<char>, Seq<char>)| alias_line(e)), seq!['\n'])
}

/// One line of the environment listing: `KEY=VALUE`.
pub open spec fn env_line(e: (Seq<char>, Seq<char>)) -> Seq<char> {
    e.0 + seq!['='] + e.1
}

/// The environment listing, one variable a line.
pub open spec fn env_listing(t: Entries) -> Seq<char> {
    join(t.map_values(|e: (Seq<char>, Seq<char>)| env_line(e)), seq!['\n'])
}

/// One line of the history listing: its number, right-aligned in five
/// columns, a space and the command.
pub open spec fn history_line(i: int, c: Seq<char>) -> Seq<char> {
    pad_left(decimal((i + 1) as nat), 5) + seq![' '] + c
}

/// The history listing, oldest first.
pub open spec fn history_listing(h: Seq<Seq<char>>) -> Seq<char> {
    join(h.map(|i: int, c: Seq<char>| history_line(i, c)), seq!['\n'])
}

/// The alias that `alias NAME=COMMAND` defines, from its words joined by
/// spaces: the name and command around the first `=`, both trimmed, and the
/// command without one pair of matching quotes around it.
pub open spec fn alias_definition(args: Seq<Seq<char>>) -> Option<(Seq<char>, Seq<char>)> {
    let d = join(args, seq![' ']);
    match first_index(d, '=') {
        Some(i) => Some(
            (
                trim(d.take(i), Strip::Space),
                unquote(trim(d.skip(i + 1), Strip::Space)),
            ),
        ),
        None => None,
    }
}

/// What `alias` shows and the aliases after it.
pub open spec fn alias_command(args: Seq<Seq<char>>, aliases: Entries) -> (Seq<char>, Entries) {
    if args.len() == 0 {
        (alias_listing(aliases), aliases)
    } else {
        match alias_definition(args) {
            Some((name, command)) => (
                "Added alias: "@ + alias_line((name, command)),
                assign(aliases, name, command),
            ),
            None => ("Usage: alias name=command"@, aliases),
        }
    }
}

/// The variables after `export` with the words `args`, first to last: each
/// word with an `=` after at least one character sets the name before its
/// first `=` to the rest; other words are skipped, so no name is empty.
pub open spec fn export_all(env: Entries, args: Seq<Seq<char>>) -> Entries
    decreases args.len(),
{
    if args.len() == 0 {
        env
    } else {
        let before = export_all(env, args.drop_last());
        let a = args.last();
        match first_index(a, '=') {
            Some(i) => if i > 0 {
                assign(before, a.take(i), a.skip(i + 1))
            } else {
                before
            },
            None => before,
        }
    }
}

/// What `export` shows and the variables after it.
pub open spec fn export_command(args: Seq<Seq<char>>, env: Entries) -> (Seq<char>, Entries) {
    if args.len() == 0 {
        ("Usage: export NAME=value"@, env)
    } else {
        (Seq::empty(), export_all(env, args))
    }
}

/// What `systeminfo` asks for and the session after it.
pub open spec fn system_info_command(args: Seq<Seq<char>>, m: ShellModel) -> (
    ActionModel,
    ShellModel,
) {
    if args.len() > 0 && args[0] == "on"@ {
        (
            ActionModel::SavePreference(true, "[System info display enabled]"@),
            ShellModel { env: assign(m.env, SHOW_SYSTEM_INFO@, flag_text(true)), ..m },
        )
    } else if args.len() > 0 && args[0] == "off"@ {
        (
            ActionModel::SavePreference(false, "[System info display disabled]"@),
            ShellModel { env: assign(m.env, SHOW_SYSTEM_INFO@, flag_text(false)), ..m },
        )
    } else if args.len() > 0 && args[0] == "status"@ {
        (
            ActionModel::Show(
                if shows_system_info(crate::table::lookup(m.env, SHOW_SYSTEM_INFO@)) {
                    "System info display is enabled"@
                } else {
                    "System info display is disabled"@
                },
            ),
            m,
        )
    } else {
        (
            ActionModel::Show(
                "Usage: systeminfo [on|off|status] - Configure system information display"@,
            ),
            m,
        )
    }
}

/// What `pushd` does once the working directory `current` is known: it is
/// saved on the stack, and the change to `dir` is asked for.
pub open spec fn pushd_command(m: ShellModel, current: Seq<char>, dir: Seq<char>) -> (
    ActionModel,
    ShellModel,
) {
    (ActionModel::ChangeDir(dir), ShellModel { dirs: m.dirs.push(current), ..m })
}

/// What `popd` asks for and the session after it.
pub open spec fn popd_command(m: ShellModel) -> (ActionModel, ShellModel) {
    if m.dirs.len() > 0 {
        (ActionModel::ChangeDir(m.dirs.last()), ShellModel { dirs: m.dirs.drop_last(), ..m })
    } else {
        (ActionModel::Show("popd: directory stack empty"@), m)
    }
}

/// `echo`: expands each word again and joins them with single spaces.
pub fn handle_echo(args: &Vec<String>, shell: &Shell) -> (r: String)
    ensures
        r@ == echo_text(views(args@), shell@.env),
{
    let mut parts: Vec<String> = Vec::new();
    let mut i: usize = 0;
    while i < args.len()
        invariant
            i <= args@.len(),
            views(parts@) == views(args@).take(i as int).map_values(
                |a: Seq<char>| expand(a, shell@.env),
            ),
        decreases args.len() - i,
    {
        let ghost p0 = parts@;
        let e = expand_with(args[i].as_str(), shell.env_vars());
        parts.push(e);
        assert(views(parts@) =~= views(p0).push(e@));
        assert(views(args@)[i as int] == args@[i as int]@);
        assert(views(args@).take(i + 1).map_values(|a: Seq<char>| expand(a, shell@.env))
            =~= views(args@).take(i as int).map_values(|a: Seq<char>| expand(a, shell@.env)).push(
            e@,
        ));
        assert(views(parts@) =~= views(args@).take(i + 1).map_values(
            |a: Seq<char>| expand(a, shell@.env),
        ));
        i = i + 1;
    }
    assert(views(args@).take(args@.len() as int) =~= views(args@));
    let r = join_strings(&parts, " ");
    proof {
        reveal_strlit(" ");
        assert(" "@ =~= seq![' ']);
    }
    r
}

/// The entries of a table, one a line, in the alias form or the
/// environment form.
fn listing(t: &Table, alias_form: bool) -> (r: String)
    ensures
        alias_form ==> r@ == alias_listing(t@),
        !alias_form ==> r@ == env_listing(t@),
{
    let ghost lines = if alias_form {
        t@.map_values(|e: (Seq<char>, Seq<char>)| alias_line(e))
    } else {
        t@.map_values(|e: (Seq<char>, Seq<char>)| env_line(e))
    };
    let mut out: Vec<String> = Vec::new();
    let mut i: usize = 0;
    while i < t.len()
        invariant
            i <= t@.len(),
            lines == if alias_form {
                t@.map_values(|e: (Seq<char>, Seq<char>)| alias_line(e))
            } else {
                t@.map_values(|e: (Seq<char>, Seq<char>)| env_line(e))
            },
            views(out@) == lines.take(i as int),
        decreases t@.len() - i,
    {
        let ghost o0 = out@;
        let mut s = copy_of(t.name_at(i).as_str());
        push_char(&mut s, '=');
        if alias_form {
            push_char(&mut s, '\'');
        }
        append_str(&mut s, t.value_at(i).as_str());
        if alias_form {
            push_char(&mut s, '\'');
        }
        out.push(s);
        proof {
            if alias_form {
                assert(s@ =~= alias_line(t@[i as int]));
            } else {
                assert(s@ =~= env_line(t@[i as int]));
            }
            assert(lines[i as int] == s@);
            assert(views(out@) =~= views(o0).push(s@));
            assert(lines.take(i + 1) =~= lines.take(i as int).push(lines[i as int]));
        }
        i = i + 1;
    }
    assert(lines.take(t@.len() as int) =~= lines);
    let r = join_strings(&out, "\n");
    proof {
        reveal_strlit("\n");
        assert("\n"@ =~= seq!['\n']);
    }
    r
}

/// The aliases, one `name='command'` a line.
pub fn list_aliases(shell: &Shell) -> (r: String)
    ensures
        r@ == alias_listing(shell@.aliases),
{
    listing(shell.aliases(), true)
}

/// The environment variables, one `KEY=VALUE` a line.
pub fn list_env(shell: &Shell) -> (r: String)
    ensures
        r@ == env_listing(shell@.env),
{
    listing(shell.env_vars(), false)
}

/// The history, numbered from 1, one command a line.
pub fn handle_history(shell: &Shell) -> (r: String)
    ensures
        r@ == history_listing(shell@.history),
{
    let h = shell.history();
    let ghost lines = shell@.history.map(|i: int, c: Seq<char>| history_line(i, c));
    let mut out: Vec<String> = Vec::new();
    let mut i: usize = 0;
    while i < h.len()
        invariant
            i <= h@.len(),
            views(h@) == shell@.history,
            lines == shell@.history.map(|i: int, c: Seq<char>| history_line(i, c)),
            views(out@) == lines.take(i as int),
        decreases h.len() - i,
    {
        let ghost o0 = out@;
        let mut s = padded_decimal((i + 1) as u64, 5);
        push_char(&mut s, ' ');
        append_str(&mut s, h[i].as_str());
        out.push(s);
        proof {
            assert(views(h@)[i as int] == h@[i as int]@);
            assert(s@ =~= history_line(i as int, shell@.history[i as int]));
            assert(lines[i as int] == s@);
            assert(views(out@) =~= views(o0).push(s@));
            assert(lines.take(i + 1) =~= lines.take(i as int).push(lines[i as int]));
        }
        i = i + 1;
    }
    assert(lines.take(h@.len() as int) =~= lines);
    let r = join_strings(&out, "\n");
    proof {
        reveal_strlit("\n");
        assert("\n"@ =~= seq!['\n']);
    }
    r
}

/// `alias`: with no words, lists the aliases; with `NAME=COMMAND`, defines
/// one (see `alias_command`).
pub fn handle_alias(args: &Vec<String>, shell: &mut Shell) -> (r: String)
    requires
        old(shell).wf(),
    ensures
        final(shell).wf(),
        r@ == alias_command(views(args@), old(shell)@.aliases).0,
        final(shell)@ == (ShellModel {
            aliases: alias_command(views(args@), old(shell)@.aliases).1,
            ..old(shell)@
        }),
{
    if args.len() == 0 {
        return list_aliases(shell);
    }
    let joined = join_strings(args, " ");
    proof {
        reveal_strlit(" ");
        assert(" "@ =~= seq![' ']);
    }
    let d = chars_of(joined.as_str());
    let dn = d.len();
    match find_char(&d, '=') {
        Some(i) => {
            let name_raw = string_of_range(&d, 0, i);
            let rest = string_of_range(&d, i + 1, dn);
            assert(name_raw@ =~= d@.take(i as int));
            assert(rest@ =~= d@.skip(i + 1));
            let name = trimmed(name_raw.as_str(), &Strip::Space);
            let c1 = trimmed(rest.as_str(), &Strip::Space);
            let command = unquoted(c1.as_str());
            let mut msg = copy_of("Added alias: ");
            append_str(&mut msg, name.as_str());
            push_char(&mut msg, '=');
            push_char(&mut msg, '\'');
            append_str(&mut msg, command.as_str());
            push_char(&mut msg, '\'');
            shell.add_alias(name, command);
            assert(msg@ =~= alias_command(views(args@), old(shell)@.aliases).0);
            msg
        },
        None => copy_of("Usage: alias name=command"),
    }
}

/// `export`: sets each `NAME=value` word (see `export_command`).
pub fn handle_export(args: &Vec<String>, shell: &mut Shell) -> (r: String)
    requires
        old(shell).wf(),
    ensures
        final(shell).wf(),
        r@ == export_command(views(args@), old(shell)@.env).0,
        final(shell)@ == (ShellModel {
            env: export_command(views(args@), old(shell)@.env).1,
            ..old(shell)@
        }),
{
    if args.len() == 0 {
        return copy_of("Usage: export NAME=value");
    }
    let mut i: usize = 0;
    while i < args.len()
        invariant
            i <= args@.len(),
            shell.wf(),
            shell@ == (ShellModel {
                env: export_all(old(shell)@.env, views(args@).take(i as int)),
                ..old(shell)@
            }),
        decreases args.len() - i,
    {
        let ghost pre = views(args@).take(i as int);
        assert(views(args@).take(i + 1).drop_last() =~= pre);
        assert(views(args@).take(i + 1).last() == args@[i as int]@);
        let a = chars_of(args[i].as_str());
        let an = a.len();
        match find_char(&a, '=') {
            Some(k) if k > 0 => {
                let name = string_of_range(&a, 0, k);
                let value = string_of_range(&a, k + 1, an);
                assert(name@ =~= a@.take(k as int));
                assert(value@ =~= a@.skip(k + 1));
                shell.set_env(name, value);
            },
            _ => {},
        }
        i = i + 1;
    }
    assert(views(args@).take(args@.len() as int) =~= views(args@));
    String::new()
}

/// `systeminfo on|off|status` (see `system_info_command`).
pub fn toggle_system_info(args: &Vec<String>, shell: &mut Shell) -> (r: Action)
    requires
        old(shell).wf(),
    ensures
        final(shell).wf(),
        (r@, final(shell)@) == system_info_command(views(args@), old(shell)@),
{
    let n = args.len();
    proof {
        if n > 0 {
            assert(views(args@)[0] == args@[0]@);
        }
    }
    if n > 0 && same_text(args[0].as_str(), "on") {
        shell.set_show_system_info(true);
        Action::SavePreference(true, copy_of("[System info display enabled]"))
    } else if n > 0 && same_text(args[0].as_str(), "off") {
        shell.set_show_system_info(false);
        Action::SavePreference(false, copy_of("[System info display disabled]"))
    } else if n > 0 && same_text(args[0].as_str(), "status") {
        if shell.get_show_system_info() {
            Action::Show(copy_of("System info display is enabled"))
        } else {
            Action::Show(copy_of("System info display is disabled"))
        }
    } else {
        Action::Show(
            copy_of("Usage: systeminfo [on|off|status] - Configure system information display"),
        )
    }
}

impl Shell {
    /// `pushd`: saves the working directory `current` on the stack and asks
    /// to change to `dir` (see `pushd_command`).
    pub fn pushd(&mut self, current: String, dir: String) -> (r: Action)
        requires
            old(self).wf(),
        ensures
            final(self).wf(),
            (r@, final(self)@) == pushd_command(old(self)@, current@, dir@),
    {
        self.push_dir(current);
        Action::ChangeDir(dir)
    }
}

/// `popd`: takes the last saved directory off the stack and asks to change
/// to it (see `popd_command`).
pub fn handle_popd(shell: &mut Shell) -> (r: Action)
    requires
        old(shell).wf(),
    ensures
        final(shell).wf(),
        (r@, final(shell)@) == popd_command(old(shell)@),
{
    match shell.pop_dir() {
        Some(dir) => Action::ChangeDir(dir),
        None => Action::Show(copy_of("popd: directory stack empty")),
    }
}

} // verus!
