//! A table from names to values that keeps its entries in the order in
//! which their names were first set. Environment variables and aliases are
//! kept in one each.
use vstd::prelude::*;

use crate::text::same_text;

verus! {

/// What a table holds: its `(name, value)` pairs, in order.
pub type Entries = Seq<(Seq<char>, Seq<char>)>;

/// The index of the first entry named `k`.
pub open spec fn key_index(t: Entries, k: Seq<char>) -> Option<int>
    decreases t.len(),
{
    if t.len() == 0 {
        None
    } else if t[0].0 == k {
        Some(0)
    } else {
        match key_index(t.drop_first(), k) {
            Some(i) => Some(i + 1),
            None => None,
        }
    }
}

/// The value of the name `k`, if it is set.
pub open spec fn lookup(t: Entries, k: Seq<char>) -> Option<Seq<char>> {
    match key_index(t, k) {
        Some(i) => Some(t[i].1),
        None => None,
    }
}

/// `t` with `k` set to `v`: an entry of that name keeps its place and takes
/// the new value; otherwise the entry goes at the end.
pub open spec fn assign(t: Entries, k: Seq<char>, v: Seq<char>) -> Entries {
    match key_index(t, k) {
        Some(i) => t.update(i, (k, v)),
        None => t.push((k, v)),
    }
}

/// No two entries have the same name.
pub open spec fn keys_unique(t: Entries) -> bool {
    forall|i: int, j: int| 0 <= i < j < t.len() ==> #[trigger] t[i].0 != #[trigger] t[j].0
}

/// `key_index` finds the first entry of that name, or there is none.
pub proof fn lemma_key_index(t: Entries, k: Seq<char>)
    ensures
        match key_index(t, k) {
            Some(i) => 0 <= i < t.len() && t[i].0 == k && forall|j: int|
                0 <= j < i ==> #[trigger] t[j].0 != k,
            None => forall|j: int| 0 <= j < t.len() ==> #[trigger] t[j].0 != k,
        },
    decreases t.len(),
{
    if t.len() > 0 && t[0].0 != k {
        lemma_key_index(t.drop_first(), k);
        match key_index(t.drop_first(), k) {
            Some(i) => {
                assert forall|j: int| 0 <= j < i + 1 implies #[trigger] t[j].0 != k by {
                    if j > 0 {
                        assert(t[j] == t.drop_first()[j - 1]);
                    }
                }
            },
            None => {
                assert forall|j: int| 0 <= j < t.len() implies #[trigger] t[j].0 != k by {
                    if j > 0 {
                        assert(t[j] == t.drop_first()[j - 1]);
                    }
                }
            },
        }
    }
}

/// The entry at `i` is the first one named `t[i].0`.
pub proof fn lemma_key_index_at(t: Entries, i: int)
    requires
        0 <= i < t.len(),
        forall|j: int| 0 <= j < i ==> #[trigger] t[j].0 != t[i].0,
    ensures
        key_index(t, t[i].0) == Some(i),
{
    lemma_key_index(t, t[i].0);
}

/// Setting a name keeps the names unique, and the name then has that value.
pub proof fn lemma_assign(t: Entries, k: Seq<char>, v: Seq<char>)
    requires
        keys_unique(t),
    ensures
        keys_unique(assign(t, k, v)),
        lookup(assign(t, k, v), k) == Some(v),
        forall|n: Seq<char>| n != k ==> #[trigger] lookup(assign(t, k, v), n) == lookup(t, n),
{
    let u = assign(t, k, v);
    lemma_key_index(t, k);
    let pos = match key_index(t, k) {
        Some(i) => i,
        None => t.len() as int,
    };
    assert(u.len() == t.len() || u.len() == t.len() + 1);
    assert(0 <= pos < u.len() && u[pos] == (k, v));
    assert(forall|j: int| 0 <= j < u.len() && j != pos ==> #[trigger] u[j] == t[j]);
    assert(forall|j: int| 0 <= j < pos ==> #[trigger] u[j].0 != u[pos].0);
    lemma_key_index_at(u, pos);
    assert forall|n: Seq<char>| n != k implies #[trigger] lookup(u, n) == lookup(t, n) by {
        lemma_key_index(t, n);
        lemma_key_index(u, n);
        match key_index(t, n) {
            Some(i) => {
                assert(u[i] == t[i]);
                assert(forall|j: int| 0 <= j < i ==> #[trigger] u[j].0 != u[i].0);
                lemma_key_index_at(u, i);
            },
            None => {
                if let Some(i) = key_index(u, n) {
                    assert(u[i] == t[i]);
                }
            },
        }
    }
}

/// Names mapped to values, in the order in which they were first set.
#[derive(Clone)]
pub struct Table {
    entries: Vec<(String, String)>,
}

impl View for Table {
    type V = Entries;

    closed spec fn view(&self) -> Entries {
        self.entries@.map_values(|p: (String, String)| (p.0@, p.1@))
    }
}

impl Table {
    /// A table holds no name twice.
    pub open spec fn wf(&self) -> bool {
        keys_unique(self@)
    }

    /// The empty table.
    pub fn new() -> (r: Table)
        ensures
            r@ == Seq::<(Seq<char>, Seq<char>)>::empty(),
            r.wf(),
    {
        let r = Table { entries: Vec::new() };
        assert(r@ =~= Seq::<(Seq<char>, Seq<char>)>::empty());
        r
    }

    /// The number of entries.
    pub fn len(&self) -> (r: usize)
        ensures
            r == self@.len(),
    {
        self.entries.len()
    }

    /// The name of the entry at `i`.
    pub fn name_at(&self, i: usize) -> (r: &String)
        requires
            i < self@.len(),
        ensures
            r@ == self@[i as int].0,
    {
        &self.entries[i].0
    }

    /// The value of the entry at `i`.
    pub fn value_at(&self, i: usize) -> (r: &String)
        requires
            i < self@.len(),
        ensures
            r@ == self@[i as int].1,
    {
        &self.entries[i].1
    }

    /// The index of the entry named `key`.
    pub fn find(&self, key: &str) -> (r: Option<usize>)
        ensures
            match r {
                Some(i) => key_index(self@, key@) == Some(i as int),
                None => key_index(self@, key@) is None,
            },
    {
        let mut i: usize = 0;
        while i < self.entries.len()
            invariant
                i <= self@.len(),
                self@.len() == self.entries@.len(),
                forall|j: int| 0 <= j < i ==> #[trigger] self@[j].0 != key@,
            decreases self.entries.len() - i,
        {
            assert(self@[i as int].0 == self.entries@[i as int].0@);
            if same_text(self.entries[i].0.as_str(), key) {
                proof {
                    lemma_key_index(self@, key@);
                }
                return Some(i);
            }
            i = i + 1;
        }
        proof {
            lemma_key_index(self@, key@);
        }
        None
    }

    /// The value of `key`, if it is set.
    pub fn get(&self, key: &str) -> (r: Option<&String>)
        ensures
            match r {
                Some(v) => lookup(self@, key@) == Some(v@),
                None => lookup(self@, key@) is None,
            },
    {
        match self.find(key) {
            Some(i) => {
                proof {
                    lemma_key_index(self@, key@);
                }
                Some(&self.entries[i].1)
            },
            None => None,
        }
    }

    /// Sets `key` to `value` (see `assign`).
    pub fn set(&mut self, key: String, value: String)
        requires
            old(self).wf(),
        ensures
            final(self)@ == assign(old(self)@, key@, value@),
            final(self).wf(),
    {
        proof {
            lemma_assign(old(self)@, key@, value@);
            lemma_key_index(old(self)@, key@);
        }
        let ghost (k, v) = (key@, value@);
        match self.find(key.as_str()) {
            Some(i) => {
                self.entries.set(i, (key, value));
                assert(self@ =~= assign(old(self)@, k, v));
            },
            None => {
                self.entries.push((key, value));
                assert(self@ =~= assign(old(self)@, k, v));
            },
        }
    }
}

} // verus!
