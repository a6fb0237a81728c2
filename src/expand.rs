//! Substitution of `$NAME` references by the values of environment
//! variables.
use vstd::prelude::*;

use crate::shell::Shell;
use crate::table::{lookup, Entries, Table};
use crate::text::{append_seq, chars_of, push_char, string_of_range};

verus! {

/// A character that may stand in a variable name.
pub open spec fn name_char(c: char) -> bool {
    ('a' <= c && c <= 'z') || ('A' <= c && c <= 'Z') || ('0' <= c && c <= '9') || c == '_'
}

/// The length of the run of name characters at the start of `s`.
pub open spec fn name_len(s: Seq<char>) -> nat
    decreases s.len(),
{
    if s.len() > 0 && name_char(s[0]) {
        1 + name_len(s.drop_first())
    } else {
        0
    }
}

pub proof fn lemma_name_len_bound(s: Seq<char>)
    ensures
        name_len(s) <= s.len(),
    decreases s.len(),
{
    if s.len() > 0 && name_char(s[0]) {
        lemma_name_len_bound(s.drop_first());
    }
}

/// `s` with each `$NAME` replaced, left to right in one pass, by the value
/// of `NAME` in `env`. `NAME` is the longest run of name characters after
/// the `$`. A reference to an unset name stays as it is, and so does a `$`
/// with no name after it. Substituted values are not scanned again.
pub open spec fn expand(s: Seq<char>, env: Entries) -> Seq<char>
    decreases s.len(),
    via expand_decreases
{
    if s.len() == 0 {
        Seq::empty()
    } else if s[0] == '$' && name_len(s.drop_first()) > 0 {
        let n = name_len(s.drop_first()) as int;
        let name = s.subrange(1, n + 1);
        let replacement = match lookup(env, name) {
            Some(v) => v,
            None => s.subrange(0, n + 1),
        };
        replacement + expand(s.subrange(n + 1, s.len() as int), env)
    } else {
        seq![s[0]] + expand(s.drop_first(), env)
    }
}

#[via_fn]
proof fn expand_decreases(s: Seq<char>, env: Entries) {
    if s.len() > 0 {
        lemma_name_len_bound(s.drop_first());
    }
}

/// A run of name characters from `a` that stops at `b` has length `b - a`.
proof fn lemma_name_run(s: Seq<char>, a: int, b: int)
    requires
        0 <= a <= b <= s.len(),
        forall|k: int| a <= k < b ==> name_char(#[trigger] s[k]),
        b == s.len() || !name_char(s[b]),
    ensures
        name_len(s.subrange(a, s.len() as int)) == b - a,
    decreases b - a,
{
    if a < b {
        lemma_name_run(s, a + 1, b);
        assert(s.subrange(a, s.len() as int).drop_first() =~= s.subrange(a + 1, s.len() as int));
    }
}

/// A reference `v[i..j]` to the name `v[i+1..j]` at the start of `v[i..]`.
proof fn lemma_expand_reference(v: Seq<char>, i: int, j: int, env: Entries)
    requires
        0 <= i && i + 1 < j <= v.len(),
        v[i] == '$',
        forall|k: int| i + 1 <= k < j ==> name_char(#[trigger] v[k]),
        j == v.len() || !name_char(v[j]),
    ensures
        expand(v.subrange(i, v.len() as int), env) == (match lookup(env, v.subrange(i + 1, j)) {
            Some(x) => x,
            None => v.subrange(i, j),
        }) + expand(v.subrange(j, v.len() as int), env),
{
    let n = v.len() as int;
    let rest = v.subrange(i, n);
    let len = j - i - 1;
    lemma_name_run(v, i + 1, j);
    assert(rest.drop_first() =~= v.subrange(i + 1, n));
    assert(rest.subrange(1, len + 1) =~= v.subrange(i + 1, j));
    assert(rest.subrange(0, len + 1) =~= v.subrange(i, j));
    assert(rest.subrange(len + 1, rest.len() as int) =~= v.subrange(j, n));
}

/// A character of `v` that starts no reference stays as it is.
proof fn lemma_expand_plain(v: Seq<char>, i: int, env: Entries)
    requires
        0 <= i < v.len(),
        v[i] != '$' || i + 1 == v.len() || !name_char(v[i + 1]),
    ensures
        expand(v.subrange(i, v.len() as int), env) == seq![v[i]] + expand(
            v.subrange(i + 1, v.len() as int),
            env,
        ),
{
    let n = v.len() as int;
    let rest = v.subrange(i, n);
    assert(rest.drop_first() =~= v.subrange(i + 1, n));
    if v[i] == '$' && i + 1 < n {
        assert(rest.drop_first()[0] == v[i + 1]);
    }
}

/// Expands the references in `command` with the variables of `env`.
pub fn expand_with(command: &str, env: &Table) -> (r: String)
    ensures
        r@ == expand(command@, env@),
{
    let v = chars_of(command);
    let n = v.len();
    let mut r = String::new();
    let mut i: usize = 0;
    assert(v@.subrange(0, n as int) =~= v@);
    while i < n
        invariant
            i <= n == v@.len(),
            v@ == command@,
            r@ + expand(v@.subrange(i as int, n as int), env@) == expand(command@, env@),
        decreases n - i,
    {
        let ghost r0 = r@;
        let mut j: usize = i + 1;
        if v[i] == '$' {
            while j < n && is_name_char(v[j])
                invariant
                    i < j <= n == v@.len(),
                    forall|k: int| i + 1 <= k < j ==> name_char(#[trigger] v@[k]),
                decreases n - j,
            {
                j = j + 1;
            }
        }
        if j > i + 1 {
            proof {
                lemma_expand_reference(v@, i as int, j as int, env@);
            }
            let name = string_of_range(&v, i + 1, j);
            let ghost x = match lookup(env@, name@) {
                Some(x) => x,
                None => v@.subrange(i as int, j as int),
            };
            match env.get(name.as_str()) {
                Some(value) => {
                    let w = chars_of(value.as_str());
                    append_seq(&mut r, &w);
                },
                None => {
                    let lit = string_of_range(&v, i, j);
                    let w = chars_of(lit.as_str());
                    append_seq(&mut r, &w);
                },
            }
            assert(r@ == r0 + x);
            assert((r0 + x) + expand(v@.subrange(j as int, n as int), env@) =~= r0 + (x + expand(
                v@.subrange(j as int, n as int),
                env@,
            )));
            i = j;
        } else {
            proof {
                lemma_expand_plain(v@, i as int, env@);
            }
            push_char(&mut r, v[i]);
            assert(r@ + expand(v@.subrange(i + 1, n as int), env@) =~= r0 + (seq![v@[i as int]]
                + expand(v@.subrange(i + 1, n as int), env@)));
            i = i + 1;
        }
    }
    assert(r@ + Seq::<char>::empty() =~= r@);
    r
}

/// Whether `c` may stand in a variable name.
pub fn is_name_char(c: char) -> (r: bool)
    ensures
        r == name_char(c),
{
    ('a' <= c && c <= 'z') || ('A' <= c && c <= 'Z') || ('0' <= c && c <= '9') || c == '_'
}

/// Expands the references in `command` with the shell's environment.
pub fn expand_env_vars(command: &str, shell: &Shell) -> (r: String)
    ensures
        r@ == expand(command@, shell@.env),
{
    expand_with(command, shell.env_vars())
}

} // verus!
