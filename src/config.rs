//! The configuration file: its lines, the `alias NAME=VALUE` and
//! `export NAME=VALUE` directives it holds, and the rewrite that records the
//! system-information preference.
use vstd::prelude::*;

use crate::shell::{flag_text, Shell, ShellModel};
use crate::table::assign;
use crate::text::{
    chars_of, has_prefix, join, join_strings, starts_with, string_of, string_of_range, trim,
    trim_bounds, views, Strip, first_index, find_char, copy_of,
};

verus! {

/// What a configuration file holds when it is first created.
pub const DEFAULT_CONFIG: &'static str = "# Batcave Shell Configuration\n\
\n\
# Default aliases\n\
alias ll=\"ls -la\"\n\
alias cls=\"clear\"\n\
alias gst=\"git status\"\n\
alias gco=\"git checkout\"\n\
\n\
# Environment variables\n\
export PATH=\"$HOME/.cargo/bin:$PATH\"\n\
export EDITOR=\"vim\"\n\
export TERM=\"xterm-256color\"\n\
\n\
# Custom prompt settings\n\
export PS1=\"\u{1f987} \\w> \"\n\
\n\
# Add your custom configurations below\n";

/// The prefix of a line that defines an alias.
pub const ALIAS_PREFIX: &'static str = "alias ";

/// The prefix of a line that sets a variable.
pub const EXPORT_PREFIX: &'static str = "export ";

/// The prefix of the line that holds the system-information preference.
pub const PREFERENCE_PREFIX: &'static str = "export SHOW_SYSTEM_INFO=";

/// `s` cut at each `c`; there is always at least one piece.
pub open spec fn split_on(s: Seq<char>, c: char) -> Seq<Seq<char>>
    decreases s.len(),
{
    if s.len() == 0 {
        seq![Seq::empty()]
    } else {
        let p = split_on(s.drop_last(), c);
        if s.last() == c {
            p.push(Seq::empty())
        } else {
            p.update(p.len() - 1, p.last().push(s.last()))
        }
    }
}

/// A line without the carriage return of a `\r\n` ending.
pub open spec fn strip_cr(l: Seq<char>) -> Seq<char> {
    if l.len() > 0 && l.last() == '\r' {
        l.drop_last()
    } else {
        l
    }
}

/// The lines of `s`, as `str::lines` gives them: cut at each `\n`, each
/// line so ended without a `\r` before it, and no empty line after a
/// final `\n`.
pub open spec fn lines(s: Seq<char>) -> Seq<Seq<char>> {
    let p = split_on(s, '\n');
    let body = p.drop_last().map_values(|l: Seq<char>| strip_cr(l));
    if p.last().len() > 0 {
        body.push(p.last())
    } else {
        body
    }
}

/// One directive of the configuration file.
pub struct Setting {
    pub alias: bool,
    pub name: Seq<char>,
    pub value: Seq<char>,
}

/// `NAME=VALUE`: the name and the value trimmed, and the value without the
/// double quotes around it. A variable needs a name that is not empty.
pub open spec fn parse_definition(d: Seq<char>, alias: bool) -> Option<Setting> {
    match first_index(d, '=') {
        Some(i) => if !alias && trim(d.take(i), Strip::Space).len() == 0 {
            None
        } else {
            Some(
            Setting {
                alias,
                name: trim(d.take(i), Strip::Space),
                value: trim(trim(d.skip(i + 1), Strip::Space), Strip::Char('"')),
            },
        )
        },
        None => None,
    }
}

/// The directive of a line, if it holds one. Comments, empty lines and
/// lines of any other form hold none.
pub open spec fn parse_setting(line: Seq<char>) -> Option<Setting> {
    let t = trim(line, Strip::Space);
    if has_prefix(t, ALIAS_PREFIX@) {
        parse_definition(t.skip(ALIAS_PREFIX@.len() as int), true)
    } else if has_prefix(t, EXPORT_PREFIX@) {
        parse_definition(t.skip(EXPORT_PREFIX@.len() as int), false)
    } else {
        None
    }
}

pub open spec fn apply_setting(m: ShellModel, st: Setting) -> ShellModel {
    if st.alias {
        ShellModel { aliases: assign(m.aliases, st.name, st.value), ..m }
    } else {
        ShellModel { env: assign(m.env, st.name, st.value), ..m }
    }
}

/// `m` after the directives of `ls`, first to last.
pub open spec fn apply_config(m: ShellModel, ls: Seq<Seq<char>>) -> ShellModel
    decreases ls.len(),
{
    if ls.len() == 0 {
        m
    } else {
        let before = apply_config(m, ls.drop_last());
        match parse_setting(ls.last()) {
            Some(st) => apply_setting(before, st),
            None => before,
        }
    }
}

/// The line that records the preference.
pub open spec fn preference_line(show: bool) -> Seq<char> {
    PREFERENCE_PREFIX@ + seq!['"'] + flag_text(show) + seq!['"']
}

pub open spec fn is_preference_line(l: Seq<char>) -> bool {
    has_prefix(trim(l, Strip::Space), PREFERENCE_PREFIX@)
}

/// The lines of a configuration after the preference is recorded: each
/// line that held it is replaced, or the line is added at the end if none
/// did.
pub open spec fn preference_lines(ls: Seq<Seq<char>>, show: bool) -> Seq<Seq<char>> {
    let kept = ls.map_values(
        |l: Seq<char>|
            if is_preference_line(l) {
                preference_line(show)
            } else {
                l
            },
    );
    if exists|i: int| 0 <= i < ls.len() && is_preference_line(#[trigger] ls[i]) {
        kept
    } else {
        kept.push(preference_line(show))
    }
}

/// The text of a configuration after the preference is recorded.
pub open spec fn with_preference(content: Seq<char>, show: bool) -> Seq<char> {
    join(preference_lines(lines(content), show), seq!['\n'])
}

/// The lines of `content` (see `lines`).
pub fn split_lines(content: &str) -> (r: Vec<String>)
    ensures
        views(r@) == lines(content@),
{
    let v = chars_of(content);
    let n = v.len();
    let mut done: Vec<String> = Vec::new();
    let mut current: Vec<char> = Vec::new();
    let mut i: usize = 0;
    while i < n
        invariant
            i <= n == v@.len(),
            v@ == content@,
            ({
                let p = split_on(v@.subrange(0, i as int), '\n');
                &&& p.len() >= 1
                &&& views(done@) == p.drop_last().map_values(|l: Seq<char>| strip_cr(l))
                &&& current@ == p.last()
            }),
        decreases n - i,
    {
        let ghost pre = v@.subrange(0, i as int);
        let ghost p = split_on(pre, '\n');
        let ghost d0 = done@;
        assert(v@.subrange(0, i + 1).drop_last() =~= pre);
        if v[i] == '\n' {
            let mut end = current.len();
            if end > 0 && current[end - 1] == '\r' {
                end = end - 1;
            }
            let line = string_of_range(&current, 0, end);
            assert(line@ == strip_cr(p.last())) by {
                if current@.len() > 0 && current@.last() == '\r' {
                    assert(current@.subrange(0, end as int) =~= current@.drop_last());
                } else {
                    assert(current@.subrange(0, end as int) =~= current@);
                }
            }
            done.push(line);
            current = Vec::new();
            let ghost q = split_on(v@.subrange(0, i + 1), '\n');
            assert(q == p.push(Seq::empty()));
            assert(q.drop_last() =~= p);
            assert(views(done@) =~= views(d0).push(line@));
            assert(q.drop_last().map_values(|l: Seq<char>| strip_cr(l)) =~= p.drop_last().map_values(
                |l: Seq<char>| strip_cr(l),
            ).push(strip_cr(p.last())));
        } else {
            current.push(v[i]);
            let ghost q = split_on(v@.subrange(0, i + 1), '\n');
            assert(q == p.update(p.len() - 1, p.last().push(v@[i as int])));
            assert(q.drop_last() =~= p.drop_last());
        }
        i = i + 1;
    }
    assert(v@.subrange(0, n as int) =~= v@);
    if current.len() > 0 {
        let ghost d0 = done@;
        let last = string_of(&current);
        done.push(last);
        assert(views(done@) =~= views(d0).push(last@));
    }
    done
}

/// A directive read from a line of the configuration.
pub struct Directive {
    pub alias: bool,
    pub name: String,
    pub value: String,
}

/// Whether `r` holds what `st` describes.
pub open spec fn directive_is(r: Option<Directive>, st: Option<Setting>) -> bool {
    match st {
        Some(st) => r is Some && r->0.alias == st.alias && r->0.name@ == st.name && r->0.value@
            == st.value,
        None => r is None,
    }
}

/// The parts of `d` around its first `=`, as `parse_definition` reads them.
fn parse_definition_exec(d: &Vec<char>, from: usize, alias: bool) -> (r: Option<Directive>)
    requires
        from <= d@.len(),
    ensures
        directive_is(r, parse_definition(d@.skip(from as int), alias)),
{
    let rest = string_of_range(d, from, d.len());
    let w = chars_of(rest.as_str());
    assert(w@ =~= d@.skip(from as int));
    match find_char(&w, '=') {
        Some(i) => {
            let name_raw = string_of_range(&w, 0, i);
            let value_raw = string_of_range(&w, i + 1, w.len());
            assert(name_raw@ =~= w@.take(i as int));
            assert(value_raw@ =~= w@.skip(i + 1));
            let name = crate::text::trimmed(name_raw.as_str(), &Strip::Space);
            let name_chars = chars_of(name.as_str());
            if !alias && name_chars.len() == 0 {
                return None;
            }
            let value_spaced = crate::text::trimmed(value_raw.as_str(), &Strip::Space);
            let value = crate::text::trimmed(value_spaced.as_str(), &Strip::Char('"'));
            Some(Directive { alias, name, value })
        },
        None => None,
    }
}

/// The directive of one line (see `parse_setting`): whether it defines an
/// alias, its name and its value.
pub fn parse_config_line(line: &str) -> (r: Option<Directive>)
    ensures
        directive_is(r, parse_setting(line@)),
{
    let v = chars_of(line);
    let (i, j) = trim_bounds(&v, &Strip::Space);
    let t = string_of_range(&v, i, j);
    let tv = chars_of(t.as_str());
    let ap = chars_of(ALIAS_PREFIX);
    let ep = chars_of(EXPORT_PREFIX);
    if starts_with(&tv, &ap) {
        parse_definition_exec(&tv, ap.len(), true)
    } else if starts_with(&tv, &ep) {
        parse_definition_exec(&tv, ep.len(), false)
    } else {
        None
    }
}

impl Shell {
    /// Reads the directives of a configuration text into the session, first
    /// to last; a later directive for the same name wins. Lines that hold
    /// no directive are skipped.
    pub fn load_config(&mut self, content: &str)
        requires
            old(self).wf(),
        ensures
            final(self).wf(),
            final(self)@ == apply_config(old(self)@, lines(content@)),
    {
        let ls = split_lines(content);
        let mut i: usize = 0;
        while i < ls.len()
            invariant
                i <= ls@.len(),
                views(ls@) == lines(content@),
                self.wf(),
                self@ == apply_config(old(self)@, views(ls@).take(i as int)),
            decreases ls.len() - i,
        {
            let ghost pre = views(ls@).take(i as int);
            let ghost next = views(ls@).take(i + 1);
            assert(next.drop_last() =~= pre);
            assert(next.last() == ls@[i as int]@);
            match parse_config_line(ls[i].as_str()) {
                Some(d) => {
                    if d.alias {
                        self.add_alias(d.name, d.value);
                    } else {
                        self.set_env(d.name, d.value);
                    }
                },
                None => {},
            }
            i = i + 1;
        }
        assert(views(ls@).take(ls@.len() as int) =~= views(ls@));
    }
}

/// The configuration text `content` with the preference recorded (see
/// `with_preference`).
pub fn config_with_preference(content: &str, show: bool) -> (r: String)
    ensures
        r@ == with_preference(content@, show),
{
    let ls = split_lines(content);
    let line = if show {
        copy_of("export SHOW_SYSTEM_INFO=\"true\"")
    } else {
        copy_of("export SHOW_SYSTEM_INFO=\"false\"")
    };
    proof {
        reveal_strlit("export SHOW_SYSTEM_INFO=\"true\"");
        reveal_strlit("export SHOW_SYSTEM_INFO=\"false\"");
        reveal_strlit("export SHOW_SYSTEM_INFO=");
        reveal_strlit("true");
        reveal_strlit("false");
        assert(line@ =~= preference_line(show));
    }
    let prefix = chars_of(PREFERENCE_PREFIX);
    let ghost ls_v = views(ls@);
    let ghost kept = ls_v.map_values(
        |l: Seq<char>|
            if is_preference_line(l) {
                preference_line(show)
            } else {
                l
            },
    );
    let mut out: Vec<String> = Vec::new();
    let mut found = false;
    let mut i: usize = 0;
    while i < ls.len()
        invariant
            i <= ls@.len(),
            ls_v == views(ls@),
            ls_v == lines(content@),
            line@ == preference_line(show),
            prefix@ == PREFERENCE_PREFIX@,
            kept == ls_v.map_values(
                |l: Seq<char>|
                    if is_preference_line(l) {
                        preference_line(show)
                    } else {
                        l
                    },
            ),
            views(out@) == kept.take(i as int),
            found == exists|k: int| 0 <= k < i && is_preference_line(#[trigger] ls_v[k]),
        decreases ls.len() - i,
    {
        let ghost o0 = out@;
        let t = crate::text::trimmed(ls[i].as_str(), &Strip::Space);
        let tv = chars_of(t.as_str());
        if starts_with(&tv, &prefix) {
            out.push(copy_of(line.as_str()));
            found = true;
        } else {
            out.push(copy_of(ls[i].as_str()));
        }
        assert(views(out@) =~= views(o0).push(kept[i as int]));
        assert(kept.take(i + 1) =~= kept.take(i as int).push(kept[i as int]));
        i = i + 1;
    }
    assert(kept.take(ls@.len() as int) =~= kept);
    if !found {
        let ghost o0 = out@;
        out.push(line);
        assert(views(out@) =~= views(o0).push(preference_line(show)));
    }
    let r = join_strings(&out, "\n");
    proof {
        reveal_strlit("\n");
        assert("\n"@ =~= seq!['\n']);
        assert(views(out@) == preference_lines(ls_v, show));
    }
    r
}

/// The text of a new configuration file.
pub fn default_config() -> (r: String)
    ensures
        r@ == DEFAULT_CONFIG@,
{
    copy_of(DEFAULT_CONFIG)
}

} // verus!
