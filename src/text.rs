//! Character-level helpers shared by the tokenizer, the expander, the
//! configuration parser and the handlers. Text is modelled as `Seq<char>`.
use vstd::prelude::*;

verus! {

/// The views of a sequence of strings.
pub open spec fn views(v: Seq<String>) -> Seq<Seq<char>> {
    v.map_values(|s: String| s@)
}

/// Unicode `White_Space`, as `char::is_whitespace` decides it.
pub open spec fn white_space(c: char) -> bool {
    ||| c == ' '
    ||| ('\u{9}' <= c && c <= '\u{d}')
    ||| c == '\u{85}'
    ||| c == '\u{a0}'
    ||| c == '\u{1680}'
    ||| ('\u{2000}' <= c && c <= '\u{200a}')
    ||| c == '\u{2028}'
    ||| c == '\u{2029}'
    ||| c == '\u{202f}'
    ||| c == '\u{205f}'
    ||| c == '\u{3000}'
}

/// Which characters a trim removes: white space, or one given character.
pub enum Strip {
    Space,
    Char(char),
}

pub open spec fn stripped(c: char, k: Strip) -> bool {
    match k {
        Strip::Space => white_space(c),
        Strip::Char(d) => c == d,
    }
}

/// `s` without its leading characters of class `k`.
pub open spec fn trim_start(s: Seq<char>, k: Strip) -> Seq<char>
    decreases s.len(),
{
    if s.len() > 0 && stripped(s[0], k) {
        trim_start(s.drop_first(), k)
    } else {
        s
    }
}

/// `s` without its trailing characters of class `k`.
pub open spec fn trim_end(s: Seq<char>, k: Strip) -> Seq<char>
    decreases s.len(),
{
    if s.len() > 0 && stripped(s.last(), k) {
        trim_end(s.drop_last(), k)
    } else {
        s
    }
}

/// `s` without leading and trailing characters of class `k`.
pub open spec fn trim(s: Seq<char>, k: Strip) -> Seq<char> {
    trim_end(trim_start(s, k), k)
}

/// Whether `p` is a prefix of `s`.
pub open spec fn has_prefix(s: Seq<char>, p: Seq<char>) -> bool {
    p.len() <= s.len() && s.subrange(0, p.len() as int) == p
}

/// Whether `p` occurs somewhere in `s`.
pub open spec fn contains(s: Seq<char>, p: Seq<char>) -> bool {
    exists|i: int| 0 <= i && i + p.len() <= s.len() && #[trigger] s.subrange(i, i + p.len()) == p
}

/// The index of the first `c` in `s`, if any.
pub open spec fn first_index(s: Seq<char>, c: char) -> Option<int>
    decreases s.len(),
{
    if s.len() == 0 {
        None
    } else if s[0] == c {
        Some(0)
    } else {
        match first_index(s.drop_first(), c) {
            Some(i) => Some(i + 1),
            None => None,
        }
    }
}

/// The parts of `parts` with `sep` between each two.
pub open spec fn join(parts: Seq<Seq<char>>, sep: Seq<char>) -> Seq<char>
    decreases parts.len(),
{
    if parts.len() == 0 {
        Seq::empty()
    } else if parts.len() == 1 {
        parts[0]
    } else {
        join(parts.drop_last(), sep) + sep + parts.last()
    }
}

/// Relies on `String::push`: appends one character at the end.
#[verifier::external_body]
pub(crate) fn push_char(s: &mut String, c: char)
    ensures
        final(s)@ == old(s)@.push(c),
{
    s.push(c)
}

/// Collects the characters of `s` into a vector.
pub fn chars_of(s: &str) -> (r: Vec<char>)
    ensures
        r@ == s@,
{
    let mut r: Vec<char> = Vec::new();
    for c in it: s.chars()
        invariant
            r@ == it.seq().take(it.index() as int),
    {
        r.push(c);
    }
    r
}

/// The string made of the characters `v[from..to]`.
pub fn string_of_range(v: &Vec<char>, from: usize, to: usize) -> (r: String)
    requires
        from <= to <= v@.len(),
    ensures
        r@ == v@.subrange(from as int, to as int),
{
    let mut r = String::new();
    let mut i: usize = from;
    while i < to
        invariant
            from <= i <= to <= v@.len(),
            r@ == v@.subrange(from as int, i as int),
        decreases to - i,
    {
        push_char(&mut r, v[i]);
        assert(v@.subrange(from as int, i + 1) =~= v@.subrange(from as int, i as int).push(v@[i as int]));
        i = i + 1;
    }
    r
}

/// The string made of all characters of `v`.
pub fn string_of(v: &Vec<char>) -> (r: String)
    ensures
        r@ == v@,
{
    let r = string_of_range(v, 0, v.len());
    assert(v@.subrange(0, v@.len() as int) =~= v@);
    r
}

/// Appends `t` at the end of `s`.
pub fn append_seq(s: &mut String, t: &Vec<char>)
    ensures
        final(s)@ == old(s)@ + t@,
{
    let mut i: usize = 0;
    while i < t.len()
        invariant
            i <= t@.len(),
            s@ == old(s)@ + t@.subrange(0, i as int),
        decreases t.len() - i,
    {
        push_char(s, t[i]);
        assert(t@.subrange(0, i + 1) =~= t@.subrange(0, i as int).push(t@[i as int]));
        i = i + 1;
    }
    assert(t@.subrange(0, t@.len() as int) =~= t@);
}

/// Appends the string `t` at the end of `s`.
pub fn append_str(s: &mut String, t: &str)
    ensures
        final(s)@ == old(s)@ + t@,
{
    let v = chars_of(t);
    append_seq(s, &v);
}

/// A copy of `s`.
pub fn copy_of(s: &str) -> (r: String)
    ensures
        r@ == s@,
{
    let v = chars_of(s);
    string_of(&v)
}

/// Whether two strings hold the same characters.
pub fn same_text(a: &str, b: &str) -> (r: bool)
    ensures
        r == (a@ == b@),
{
    let x = chars_of(a);
    let y = chars_of(b);
    if x.len() != y.len() {
        return false;
    }
    let mut i: usize = 0;
    while i < x.len()
        invariant
            x@ == a@,
            y@ == b@,
            x@.len() == y@.len(),
            i <= x@.len(),
            forall|j: int| 0 <= j < i ==> x@[j] == y@[j],
        decreases x.len() - i,
    {
        if x[i] != y[i] {
            assert(x@[i as int] != y@[i as int]);
            return false;
        }
        i = i + 1;
    }
    assert(x@ =~= y@);
    true
}

/// Whether `c` is white space (see `white_space`).
pub fn is_white_space(c: char) -> (r: bool)
    ensures
        r == white_space(c),
{
    c == ' ' || ('\u{9}' <= c && c <= '\u{d}') || c == '\u{85}' || c == '\u{a0}' || c
        == '\u{1680}' || ('\u{2000}' <= c && c <= '\u{200a}') || c == '\u{2028}' || c
        == '\u{2029}' || c == '\u{202f}' || c == '\u{205f}' || c == '\u{3000}'
}

pub fn is_stripped(c: char, k: &Strip) -> (r: bool)
    ensures
        r == stripped(c, *k),
{
    match k {
        Strip::Space => is_white_space(c),
        Strip::Char(d) => c == *d,
    }
}

proof fn lemma_trim_start_step(s: Seq<char>, i: int, k: Strip)
    requires
        0 <= i < s.len(),
        stripped(s[i], k),
    ensures
        trim_start(s.subrange(i, s.len() as int), k) == trim_start(
            s.subrange(i + 1, s.len() as int),
            k,
        ),
{
    assert(s.subrange(i, s.len() as int).drop_first() =~= s.subrange(i + 1, s.len() as int));
}

/// The bounds `(i, j)` of `trim(v, k)` within `v`.
pub fn trim_bounds(v: &Vec<char>, k: &Strip) -> (r: (usize, usize))
    ensures
        r.0 <= r.1 <= v@.len(),
        v@.subrange(r.0 as int, r.1 as int) == trim(v@, *k),
{
    let n = v.len();
    let mut i: usize = 0;
    assert(v@.subrange(0, n as int) =~= v@);
    while i < n && is_stripped(v[i], k)
        invariant
            i <= n == v@.len(),
            trim_start(v@, *k) == trim_start(v@.subrange(i as int, n as int), *k),
        decreases n - i,
    {
        proof {
            lemma_trim_start_step(v@, i as int, *k);
        }
        i = i + 1;
    }
    let t = Ghost(v@.subrange(i as int, n as int));
    assert(trim_start(v@, *k) == t@) by {
        if i < n {
            assert(!stripped(t@[0], *k));
        }
    }
    let mut j: usize = n;
    while j > i && is_stripped(v[j - 1], k)
        invariant
            i <= j <= n == v@.len(),
            t@ == v@.subrange(i as int, n as int),
            trim_end(t@, *k) == trim_end(v@.subrange(i as int, j as int), *k),
        decreases j,
    {
        proof {
            let u = v@.subrange(i as int, j as int);
            assert(u.drop_last() =~= v@.subrange(i as int, j - 1));
        }
        j = j - 1;
    }
    assert(trim_end(v@.subrange(i as int, j as int), *k) == v@.subrange(i as int, j as int));
    (i, j)
}

/// `trim(s, k)` as a new string.
pub fn trimmed(s: &str, k: &Strip) -> (r: String)
    ensures
        r@ == trim(s@, *k),
{
    let v = chars_of(s);
    let (i, j) = trim_bounds(&v, k);
    string_of_range(&v, i, j)
}

/// Whether `p` is a prefix of `s`.
pub fn starts_with(s: &Vec<char>, p: &Vec<char>) -> (r: bool)
    ensures
        r == has_prefix(s@, p@),
{
    if p.len() > s.len() {
        return false;
    }
    let mut i: usize = 0;
    while i < p.len()
        invariant
            p@.len() <= s@.len(),
            i <= p@.len(),
            forall|j: int| 0 <= j < i ==> s@[j] == p@[j],
        decreases p.len() - i,
    {
        if s[i] != p[i] {
            assert(s@.subrange(0, p@.len() as int)[i as int] != p@[i as int]);
            return false;
        }
        i = i + 1;
    }
    assert(s@.subrange(0, p@.len() as int) =~= p@);
    true
}

/// Whether the string `p` is a prefix of the string `s`.
pub fn str_starts_with(s: &str, p: &str) -> (r: bool)
    ensures
        r == has_prefix(s@, p@),
{
    let x = chars_of(s);
    let y = chars_of(p);
    starts_with(&x, &y)
}

proof fn lemma_first_index_from(s: Seq<char>, i: int, c: char)
    requires
        0 <= i < s.len(),
        s[i] != c,
    ensures
        first_index(s.subrange(i, s.len() as int), c) == match first_index(
            s.subrange(i + 1, s.len() as int),
            c,
        ) {
            Some(j) => Some(j + 1),
            None => None::<int>,
        },
{
    assert(s.subrange(i, s.len() as int).drop_first() =~= s.subrange(i + 1, s.len() as int));
}

/// The index of the first `c` in `v`.
pub fn find_char(v: &Vec<char>, c: char) -> (r: Option<usize>)
    ensures
        match r {
            Some(i) => first_index(v@, c) == Some(i as int) && i < v@.len() && v@[i as int] == c,
            None => first_index(v@, c) is None,
        },
{
    let n = v.len();
    let mut i: usize = 0;
    assert(v@.subrange(0, n as int) =~= v@);
    while i < n
        invariant
            i <= n == v@.len(),
            first_index(v@, c) == match first_index(v@.subrange(i as int, n as int), c) {
                Some(j) => Some(j + i),
                None => None::<int>,
            },
        decreases n - i,
    {
        if v[i] == c {
            assert(v@.subrange(i as int, n as int)[0] == c);
            return Some(i);
        }
        proof {
            lemma_first_index_from(v@, i as int, c);
        }
        i = i + 1;
    }
    assert(v@.subrange(n as int, n as int).len() == 0);
    None
}

/// Joins the strings of `parts` with `sep` between each two.
pub fn join_strings(parts: &Vec<String>, sep: &str) -> (r: String)
    ensures
        r@ == join(views(parts@), sep@),
{
    let mut r = String::new();
    let mut i: usize = 0;
    while i < parts.len()
        invariant
            i <= parts@.len(),
            r@ == join(views(parts@.subrange(0, i as int)), sep@),
        decreases parts.len() - i,
    {
        let ghost before = views(parts@.subrange(0, i as int));
        if i > 0 {
            append_str(&mut r, sep);
        }
        append_str(&mut r, parts[i].as_str());
        proof {
            let after = views(parts@.subrange(0, i + 1));
            assert(after.drop_last() =~= before);
            assert(after.last() == parts@[i as int]@);
            if i == 0 {
                assert(before.len() == 0);
            }
        }
        i = i + 1;
    }
    assert(parts@.subrange(0, parts@.len() as int) =~= parts@);
    r
}

/// The decimal digit of `d`.
pub open spec fn digit(d: nat) -> char {
    ((d + 48) as u8) as char
}

/// The decimal form of `n`.
pub open spec fn decimal(n: nat) -> Seq<char>
    decreases n,
{
    if n < 10 {
        seq![digit(n)]
    } else {
        decimal(n / 10).push(digit(n % 10))
    }
}

/// `s` with spaces before it up to `width` characters, as `{:width}` pads a
/// number.
pub open spec fn pad_left(s: Seq<char>, width: nat) -> Seq<char> {
    if s.len() < width {
        Seq::new((width - s.len()) as nat, |i: int| ' ') + s
    } else {
        s
    }
}

/// Appends the decimal form of `n`.
pub fn push_decimal(s: &mut String, n: u64)
    ensures
        final(s)@ == old(s)@ + decimal(n as nat),
    decreases n,
{
    if n >= 10 {
        push_decimal(s, n / 10);
    }
    let d = (n % 10) as u8;
    push_char(s, (d + 48) as char);
    proof {
        if n < 10 {
            assert(old(s)@ + decimal(n as nat) =~= old(s)@.push(digit(n as nat)));
        } else {
            assert(old(s)@ + decimal(n as nat) =~= (old(s)@ + decimal((n / 10) as nat)).push(
                digit((n % 10) as nat),
            ));
        }
    }
}

/// The decimal form of `n`, with spaces before it up to `width` characters.
pub fn padded_decimal(n: u64, width: usize) -> (r: String)
    ensures
        r@ == pad_left(decimal(n as nat), width as nat),
{
    let mut digits = String::new();
    push_decimal(&mut digits, n);
    let dv = chars_of(digits.as_str());
    assert(dv@ =~= decimal(n as nat));
    let mut r = String::new();
    if dv.len() < width {
        let mut k: usize = 0;
        while k < width - dv.len()
            invariant
                dv@.len() < width,
                k <= width - dv@.len(),
                r@ == Seq::new(k as nat, |i: int| ' '),
            decreases width - dv.len() - k,
        {
            push_char(&mut r, ' ');
            assert(r@ =~= Seq::new((k + 1) as nat, |i: int| ' '));
            k = k + 1;
        }
    }
    append_seq(&mut r, &dv);
    assert(r@ =~= pad_left(decimal(n as nat), width as nat));
    r
}

/// `s` without one pair of matching quotes (`"` or `'`) around it, if it
/// has one.
pub open spec fn unquote(s: Seq<char>) -> Seq<char> {
    if s.len() >= 2 && s[0] == s.last() && (s[0] == '"' || s[0] == '\'') {
        s.subrange(1, s.len() - 1)
    } else {
        s
    }
}

/// `s` without one pair of matching quotes around it (see `unquote`).
pub fn unquoted(s: &str) -> (r: String)
    ensures
        r@ == unquote(s@),
{
    let v = chars_of(s);
    let n = v.len();
    if n >= 2 && v[0] == v[n - 1] && (v[0] == '"' || v[0] == '\'') {
        string_of_range(&v, 1, n - 1)
    } else {
        string_of(&v)
    }
}

/// The characters of `s` after its last white space: the word that ends it.
pub open spec fn last_word(s: Seq<char>) -> Seq<char>
    decreases s.len(),
{
    if s.len() == 0 || white_space(s.last()) {
        Seq::empty()
    } else {
        last_word(s.drop_last()).push(s.last())
    }
}

/// The word that ends `s` (see `last_word`).
pub fn extract_word(s: &str) -> (r: String)
    ensures
        r@ == last_word(s@),
{
    let v = chars_of(s);
    let n = v.len();
    let mut start: usize = n;
    assert(v@.subrange(0, n as int) =~= v@);
    assert(v@ + v@.subrange(n as int, n as int) =~= v@);
    while start > 0 && !is_white_space(v[start - 1])
        invariant
            start <= n == v@.len(),
            last_word(v@) == last_word(v@.subrange(0, start as int)) + v@.subrange(
                start as int,
                n as int,
            ),
        decreases start,
    {
        proof {
            let u = v@.subrange(0, start as int);
            assert(u.drop_last() =~= v@.subrange(0, start - 1));
            assert(u.last() == v@[start - 1]);
            assert(last_word(u) == last_word(v@.subrange(0, start - 1)).push(v@[start - 1]));
            assert(last_word(v@.subrange(0, start - 1)).push(v@[start - 1]) + v@.subrange(
                start as int,
                n as int,
            ) =~= last_word(v@.subrange(0, start - 1)) + v@.subrange(start - 1, n as int));
        }
        start = start - 1;
    }
    proof {
        assert(v@.subrange(0, n as int) =~= v@);
        assert(v@.subrange(n as int, n as int) =~= Seq::<char>::empty());
        assert(last_word(v@.subrange(0, start as int)) =~= Seq::<char>::empty());
        assert(last_word(v@) =~= v@.subrange(start as int, n as int));
    }
    string_of_range(&v, start, n)
}

} // verus!
