//! A map keyed by strings, kept as an association list. Lookups find the
//! first entry with the key; `insert` keeps at most one entry per key.

use vstd::prelude::*;
use crate::utils::text::str_eq;

verus! {

/// The value of the first entry of `entries` whose key is `k`.
pub open spec fn lookup<V>(entries: Seq<(String, V)>, k: Seq<char>) -> Option<V>
    decreases entries.len(),
{
    if entries.len() == 0 {
        None
    } else if entries[0].0@ == k {
        Some(entries[0].1)
    } else {
        lookup(entries.drop_first(), k)
    }
}

/// Index of the first entry of `entries` whose key is `k`, if any.
pub open spec fn index_of<V>(entries: Seq<(String, V)>, k: Seq<char>) -> Option<int>
    decreases entries.len(),
{
    if entries.len() == 0 {
        None
    } else if entries[0].0@ == k {
        Some(0)
    } else {
        match index_of(entries.drop_first(), k) {
            Some(i) => Some(i + 1),
            None => None,
        }
    }
}

pub proof fn lemma_index_of<V>(entries: Seq<(String, V)>, k: Seq<char>)
    ensures
        match index_of(entries, k) {
            Some(i) => 0 <= i < entries.len() && entries[i].0@ == k
                && lookup(entries, k) == Some(entries[i].1)
                && forall|j: int| 0 <= j < i ==> entries[j].0@ != k,
            None => lookup(entries, k).is_none()
                && forall|j: int| 0 <= j < entries.len() ==> entries[j].0@ != k,
        },
    decreases entries.len(),
{
    if entries.len() > 0 && entries[0].0@ != k {
        lemma_index_of(entries.drop_first(), k);
        match index_of(entries.drop_first(), k) {
            Some(i) => {
                assert forall|j: int| 0 <= j < i + 1 implies entries[j].0@ != k by {
                    if j > 0 {
                        assert(entries[j] == entries.drop_first()[j - 1]);
                    }
                }
            },
            None => {
                assert forall|j: int| 0 <= j < entries.len() implies entries[j].0@ != k by {
                    if j > 0 {
                        assert(entries[j] == entries.drop_first()[j - 1]);
                    }
                }
            },
        }
    }
}

/// Lookup in a list whose first entries are known not to hold the key.
proof fn lemma_lookup_skip<V>(entries: Seq<(String, V)>, k: Seq<char>, i: int)
    requires
        0 <= i <= entries.len(),
        forall|j: int| 0 <= j < i ==> entries[j].0@ != k,
    ensures
        lookup(entries, k) == lookup(entries.subrange(i, entries.len() as int), k),
    decreases i,
{
    if i > 0 {
        assert(entries[0].0@ != k);
        let rest = entries.drop_first();
        lemma_lookup_skip(rest, k, i - 1);
        assert(rest.subrange(i - 1, rest.len() as int) =~= entries.subrange(i, entries.len() as int));
    } else {
        assert(entries.subrange(0, entries.len() as int) =~= entries);
    }
}

/// Lookups in `entries` after the entry at `i` has its value replaced.
pub proof fn lemma_lookup_update<V>(entries: Seq<(String, V)>, i: int, v: V, k: Seq<char>)
    requires
        0 <= i < entries.len(),
        index_of(entries, entries[i].0@) == Some(i),
    ensures
        lookup(entries.update(i, (entries[i].0, v)), k)
            == if k == entries[i].0@ { Some(v) } else { lookup(entries, k) },
    decreases entries.len(),
{
    let e2 = entries.update(i, (entries[i].0, v));
    if i == 0 {
        assert(e2.drop_first() =~= entries.drop_first());
    } else {
        lemma_index_of(entries, entries[i].0@);
        assert(entries[0].0@ != entries[i].0@);
        assert(e2.drop_first() =~= entries.drop_first().update(i - 1, (entries[i].0, v)));
        assert(index_of(entries.drop_first(), entries[i].0@) == Some(i - 1));
        lemma_lookup_update(entries.drop_first(), i - 1, v, k);
    }
}

/// Lookups in `entries` after a new entry is pushed at the end.
pub proof fn lemma_lookup_push<V>(entries: Seq<(String, V)>, e: (String, V), k: Seq<char>)
    ensures
        lookup(entries.push(e), k)
            == if lookup(entries, k).is_some() { lookup(entries, k) } else if k == e.0@ { Some(e.1) } else { None },
    decreases entries.len(),
{
    if entries.len() == 0 {
        assert(entries.push(e).drop_first() =~= Seq::<(String, V)>::empty());
        assert(entries.push(e)[0] == e);
        assert(lookup(Seq::<(String, V)>::empty(), k).is_none());
    } else {
        assert(entries.push(e)[0] == entries[0]);
        assert(entries.push(e).drop_first() =~= entries.drop_first().push(e));
        lemma_lookup_push(entries.drop_first(), e, k);
    }
}

/// No key occurs in two entries.
pub open spec fn keys_unique<V>(entries: Seq<(String, V)>) -> bool {
    forall|i: int, j: int|
        0 <= i < entries.len() && 0 <= j < entries.len() && i != j ==> #[trigger] entries[i].0@ != #[trigger] entries[j].0@
}

/// A map from strings to values: one entry per key.
pub struct StrMap<V> {
    pub entries: Vec<(String, V)>,
}

impl<V> StrMap<V> {
    /// Each key is stored once.
    pub open spec fn wf(&self) -> bool {
        keys_unique(self.entries@)
    }

    /// The value stored under `k`, if any.
    pub open spec fn spec_get(&self, k: Seq<char>) -> Option<V> {
        lookup(self.entries@, k)
    }

    /// An empty map.
    pub fn new() -> (m: Self)
        ensures
            m.entries@.len() == 0,
            m.wf(),
            forall|k: Seq<char>| m.spec_get(k).is_none(),
    {
        StrMap { entries: Vec::new() }
    }

    /// Number of entries.
    pub fn len(&self) -> (n: usize)
        ensures
            n == self.entries@.len(),
    {
        self.entries.len()
    }

    /// Position of the entry stored under `key`.
    pub fn find(&self, key: &str) -> (r: Option<usize>)
        ensures
            match r {
                Some(i) => index_of(self.entries@, key@) == Some(i as int),
                None => index_of(self.entries@, key@).is_none(),
            },
    {
        let n = self.entries.len();
        let mut i: usize = 0;
        proof {
            assert(self.entries@.subrange(0, n as int) =~= self.entries@);
        }
        while i < n
            invariant
                i <= n,
                n == self.entries@.len(),
                forall|j: int| 0 <= j < i ==> self.entries@[j].0@ != key@,
            decreases n - i,
        {
            if str_eq(self.entries[i].0.as_str(), key) {
                proof {
                    lemma_index_of(self.entries@, key@);
                }
                return Some(i);
            }
            i += 1;
        }
        proof {
            lemma_index_of(self.entries@, key@);
        }
        None
    }

    /// The value stored under `key`.
    pub fn get(&self, key: &str) -> (r: Option<&V>)
        ensures
            match r {
                Some(v) => self.spec_get(key@) == Some(*v),
                None => self.spec_get(key@).is_none(),
            },
    {
        proof {
            lemma_index_of(self.entries@, key@);
        }
        match self.find(key) {
            Some(i) => Some(&self.entries[i].1),
            None => None,
        }
    }

    /// Stores `value` under `key`, replacing the value that was stored there.
    pub fn insert(&mut self, key: String, value: V)
        ensures
            old(self).wf() ==> final(self).wf(),
            forall|k: Seq<char>| #[trigger] final(self).spec_get(k)
                == if k == key@ { Some(value) } else { old(self).spec_get(k) },
    {
        proof {
            lemma_index_of(self.entries@, key@);
        }
        match self.find(key.as_str()) {
            Some(i) => {
                let ghost old_entries = self.entries@;
                let k = self.entries[i].0.clone();
                self.entries.set(i, (k, value));
                proof {
                    assert(self.entries@ =~= old_entries.update(i as int, (old_entries[i as int].0, value)));
                    assert forall|k2: Seq<char>| #[trigger] lookup(self.entries@, k2)
                        == if k2 == key@ { Some(value) } else { lookup(old_entries, k2) } by {
                        lemma_lookup_update(old_entries, i as int, value, k2);
                    }
                }
            },
            None => {
                let ghost old_entries = self.entries@;
                let ghost kv = key@;
                self.entries.push((key, value));
                proof {
                    assert forall|k2: Seq<char>| #[trigger] lookup(self.entries@, k2)
                        == if k2 == kv { Some(value) } else { lookup(old_entries, k2) } by {
                        lemma_lookup_push(old_entries, self.entries@.last(), k2);
                    }
                }
            },
        }
    }
}

/// A lookup finds the value of the first entry with the key, and nothing
/// when no entry has it; in a map with one entry per key, the value of the
/// entry with the key.
pub proof fn law_lookup_finds_the_first_entry<V>(entries: Seq<(String, V)>, k: Seq<char>)
    ensures
        (forall|j: int| 0 <= j < entries.len() ==> entries[j].0@ != k) ==> lookup(entries, k) is None,
        forall|i: int| 0 <= i < entries.len() && entries[i].0@ == k
            && (forall|j: int| 0 <= j < i ==> entries[j].0@ != k) ==> lookup(entries, k) == Some(entries[i].1),
        keys_unique(entries) ==> forall|i: int| 0 <= i < entries.len() && entries[i].0@ == k
            ==> lookup(entries, k) == Some(entries[i].1),
{
    lemma_index_of(entries, k);
    match index_of(entries, k) {
        Some(i0) => {
            assert forall|i: int| 0 <= i < entries.len() && entries[i].0@ == k
                && (forall|j: int| 0 <= j < i ==> entries[j].0@ != k) implies lookup(entries, k) == Some(entries[i].1) by {
                if i < i0 {
                } else if i > i0 {
                    assert(entries[i0].0@ == k);
                }
            }
            if keys_unique(entries) {
                assert forall|i: int| 0 <= i < entries.len() && entries[i].0@ == k
                    implies lookup(entries, k) == Some(entries[i].1) by {
                    if i != i0 {
                        assert(entries[i].0@ != entries[i0].0@);
                    }
                }
            }
        },
        None => {},
    }
}

} // verus!
