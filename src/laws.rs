//! Properties that hold of every input, stated over the models and proved.
use vstd::prelude::*;

use crate::action::ActionModel;
use crate::commands::{alias_command, alias_definition, alias_line, alias_listing, pushd_command};
use crate::dispatch::{dispatch, interpret, verb_of, Builtin};
use crate::expand::expand;
use crate::shell::{bounded_push, ShellModel, HISTORY_LIMIT};
use crate::table::{assign, key_index, keys_unique, lemma_assign, lemma_key_index, lookup, Entries};
use crate::text::join;
use crate::tokenize::{scan, tokenize};

verus! {

proof fn lemma_scan_words_nonempty(s: Seq<char>)
    ensures
        forall|i: int| 0 <= i < scan(s).words.len() ==> #[trigger] scan(s).words[i].len() > 0,
    decreases s.len(),
{
    if s.len() > 0 {
        lemma_scan_words_nonempty(s.drop_last());
        let before = scan(s.drop_last());
        let after = scan(s);
        assert(after == crate::tokenize::scan_step(before, s.last()));
        assert forall|i: int| 0 <= i < after.words.len() implies #[trigger] after.words[i].len()
            > 0 by {
            if i < before.words.len() {
                assert(after.words[i] == before.words[i]);
            }
        }
    }
}

/// Splitting never gives an empty word: runs of spaces between words, and
/// spaces at either end, give none.
pub proof fn lemma_no_empty_words(s: Seq<char>)
    ensures
        forall|i: int| 0 <= i < tokenize(s).len() ==> #[trigger] tokenize(s)[i].len() > 0,
{
    lemma_scan_words_nonempty(s);
}

/// Aliases are resolved exactly once: when the first word of a line names
/// an alias, the words of the alias's command line are dispatched as they
/// are, even when their first word names an alias too; a first word that
/// names no built-in command is run as a program.
pub proof fn lemma_alias_one_level(line: Seq<char>, m: ShellModel)
    requires
        tokenize(expand(line, m.env)).len() > 0,
        lookup(m.aliases, tokenize(expand(line, m.env))[0]) is Some,
    ensures
        ({
            let words = tokenize(lookup(m.aliases, tokenize(expand(line, m.env))[0])->0);
            &&& interpret(line, m) == dispatch(words, m)
            &&& words.len() > 0 && verb_of(words[0]) is None ==> interpret(line, m) == (
                ActionModel::Run(words),
                m,
            )
        }),
{
}

/// The history after the commands `cmds` are entered in order.
pub open spec fn record_all(h: Seq<Seq<char>>, cmds: Seq<Seq<char>>) -> Seq<Seq<char>>
    decreases cmds.len(),
{
    if cmds.len() == 0 {
        h
    } else {
        bounded_push(record_all(h, cmds.drop_last()), cmds.last())
    }
}

/// From an empty history, entering commands leaves the last `HISTORY_LIMIT`
/// of them, oldest first: once more are entered, the oldest are gone and
/// the length stays at the limit.
pub proof fn lemma_history_keeps_latest(cmds: Seq<Seq<char>>)
    ensures
        record_all(Seq::empty(), cmds) == cmds.skip(
            if cmds.len() > HISTORY_LIMIT {
                cmds.len() - HISTORY_LIMIT
            } else {
                0
            },
        ),
        record_all(Seq::empty(), cmds).len() == if cmds.len() > HISTORY_LIMIT {
            HISTORY_LIMIT as nat
        } else {
            cmds.len()
        },
    decreases cmds.len(),
{
    if cmds.len() > 0 {
        let d = cmds.drop_last();
        lemma_history_keeps_latest(d);
        let r = record_all(Seq::empty(), d);
        if d.len() >= HISTORY_LIMIT {
            let k = d.len() - HISTORY_LIMIT;
            assert(r == d.skip(k as int));
            assert(r.drop_first().push(cmds.last()) =~= cmds.skip(k + 1));
        } else {
            assert(r =~= d);
            assert(d.push(cmds.last()) =~= cmds);
            assert(cmds.skip(0) =~= cmds);
        }
    }
}

/// Defining an alias and then listing the aliases shows it as
/// `name='command'`, with the quotes taken off on the way in put back on
/// the way out; on a shell with no other aliases that is the whole listing.
pub proof fn lemma_alias_round_trip(args: Seq<Seq<char>>, aliases: Entries)
    requires
        args.len() > 0,
        alias_definition(args) is Some,
        keys_unique(aliases),
    ensures
        ({
            let (name, command) = alias_definition(args)->0;
            let after = alias_command(args, aliases).1;
            &&& lookup(after, name) == Some(command)
            &&& after.map_values(|e: (Seq<char>, Seq<char>)| alias_line(e)).contains(
                alias_line((name, command)),
            )
            &&& aliases.len() == 0 ==> alias_listing(after) == alias_line((name, command))
        }),
{
    let (name, command) = alias_definition(args)->0;
    let after = alias_command(args, aliases).1;
    assert(after == assign(aliases, name, command));
    lemma_assign(aliases, name, command);
    lemma_key_index(after, name);
    let i = key_index(after, name)->0;
    let lines = after.map_values(|e: (Seq<char>, Seq<char>)| alias_line(e));
    assert(after[i] == (name, command));
    assert(lines[i] == alias_line((name, command)));
    if aliases.len() == 0 {
        assert(after =~= seq![(name, command)]);
        assert(lines.len() == 1);
        assert(alias_listing(after) == join(lines, seq!['\n']));
    }
}

/// `pushd DIR` then `popd` comes back: `pushd` asks for the working
/// directory `current`, saves it and asks to change to `DIR`; `popd` then
/// asks to change back to `current` and leaves the session as it was
/// before `pushd`.
pub proof fn lemma_pushd_then_popd(m: ShellModel, current: Seq<char>, dir: Seq<char>)
    ensures
        dispatch(seq!["pushd"@, dir], m) == (ActionModel::PushDir(dir), m),
        ({
            let (act, after) = pushd_command(m, current, dir);
            &&& act == ActionModel::ChangeDir(dir)
            &&& dispatch(seq!["popd"@], after) == (ActionModel::ChangeDir(current), m)
        }),
{
    reveal_strlit("systeminfo");
    reveal_strlit("echo");
    reveal_strlit("pwd");
    reveal_strlit("cd");
    reveal_strlit("ls");
    reveal_strlit("mkdir");
    reveal_strlit("rm");
    reveal_strlit("touch");
    reveal_strlit("alias");
    reveal_strlit("export");
    reveal_strlit("env");
    reveal_strlit("pushd");
    reveal_strlit("popd");
    assert("pushd"@ != "systeminfo"@) by {
        assert("pushd"@.len() == 5 && "systeminfo"@.len() == 10);
    }
    assert("pushd"@ != "echo"@) by {
        assert("pushd"@.len() == 5 && "echo"@.len() == 4);
    }
    assert("pushd"@ != "pwd"@) by {
        assert("pushd"@.len() == 5 && "pwd"@.len() == 3);
    }
    assert("pushd"@ != "cd"@) by {
        assert("pushd"@.len() == 5 && "cd"@.len() == 2);
    }
    assert("pushd"@ != "ls"@) by {
        assert("pushd"@.len() == 5 && "ls"@.len() == 2);
    }
    assert("pushd"@ != "mkdir"@) by {
        assert("pushd"@[0] != "mkdir"@[0]);
    }
    assert("pushd"@ != "rm"@) by {
        assert("pushd"@.len() == 5 && "rm"@.len() == 2);
    }
    assert("pushd"@ != "touch"@) by {
        assert("pushd"@[0] != "touch"@[0]);
    }
    assert("pushd"@ != "alias"@) by {
        assert("pushd"@[0] != "alias"@[0]);
    }
    assert("pushd"@ != "export"@) by {
        assert("pushd"@.len() == 5 && "export"@.len() == 6);
    }
    assert("pushd"@ != "env"@) by {
        assert("pushd"@.len() == 5 && "env"@.len() == 3);
    }
    assert("popd"@ != "systeminfo"@) by {
        assert("popd"@.len() == 4 && "systeminfo"@.len() == 10);
    }
    assert("popd"@ != "echo"@) by {
        assert("popd"@[0] != "echo"@[0]);
    }
    assert("popd"@ != "pwd"@) by {
        assert("popd"@.len() == 4 && "pwd"@.len() == 3);
    }
    assert("popd"@ != "cd"@) by {
        assert("popd"@.len() == 4 && "cd"@.len() == 2);
    }
    assert("popd"@ != "ls"@) by {
        assert("popd"@.len() == 4 && "ls"@.len() == 2);
    }
    assert("popd"@ != "mkdir"@) by {
        assert("popd"@.len() == 4 && "mkdir"@.len() == 5);
    }
    assert("popd"@ != "rm"@) by {
        assert("popd"@.len() == 4 && "rm"@.len() == 2);
    }
    assert("popd"@ != "touch"@) by {
        assert("popd"@.len() == 4 && "touch"@.len() == 5);
    }
    assert("popd"@ != "alias"@) by {
        assert("popd"@.len() == 4 && "alias"@.len() == 5);
    }
    assert("popd"@ != "export"@) by {
        assert("popd"@.len() == 4 && "export"@.len() == 6);
    }
    assert("popd"@ != "env"@) by {
        assert("popd"@.len() == 4 && "env"@.len() == 3);
    }
    assert("popd"@ != "pushd"@) by {
        assert("popd"@.len() == 4 && "pushd"@.len() == 5);
    }
    assert(verb_of("pushd"@) == Some(Builtin::Pushd));
    assert(verb_of("popd"@) == Some(Builtin::Popd));
    assert(seq!["pushd"@, dir].drop_first() =~= seq![dir]);
    assert(m.dirs.push(current).drop_last() =~= m.dirs);
}

} // verus!
