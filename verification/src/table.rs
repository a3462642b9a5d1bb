//! Lookup tables that are filled once and read afterwards.
//!
//! A table stands for a map. An entry that is added under a key that the
//! table already holds takes the place of the earlier one.

use vstd::prelude::*;

verus! {

/// The map that a sequence of entries builds up when each entry is inserted
/// in turn: of two entries with one key, the later one stays.
pub open spec fn last_wins<K, V>(entries: Seq<(K, V)>) -> Map<K, V>
    decreases entries.len(),
{
    if entries.len() == 0 {
        Map::empty()
    } else {
        last_wins(entries.drop_last()).insert(entries.last().0, entries.last().1)
    }
}

/// A key that no entry has is not in the map.
pub proof fn lemma_last_wins_absent<K, V>(entries: Seq<(K, V)>, key: K)
    requires
        forall|i: int| 0 <= i < entries.len() ==> (#[trigger] entries[i]).0 != key,
    ensures
        !last_wins(entries).contains_key(key),
    decreases entries.len(),
{
    if entries.len() > 0 {
        assert(entries.last().0 != key);
        lemma_last_wins_absent(entries.drop_last(), key);
    }
}

/// The map holds, under a key, the value of the last entry with that key.
pub proof fn lemma_last_wins_present<K, V>(entries: Seq<(K, V)>, at: int)
    requires
        0 <= at < entries.len(),
        forall|i: int| at < i < entries.len() ==> (#[trigger] entries[i]).0 != entries[at].0,
    ensures
        last_wins(entries).contains_key(entries[at].0),
        last_wins(entries)[entries[at].0] == entries[at].1,
    decreases entries.len(),
{
    if at < entries.len() - 1 {
        assert(entries.last().0 != entries[at].0);
        assert(entries.drop_last()[at] == entries[at]);
        lemma_last_wins_present(entries.drop_last(), at);
    }
}

/// The key of an entry is a key of the map.
pub proof fn lemma_last_wins_contains<K, V>(entries: Seq<(K, V)>, at: int)
    requires
        0 <= at < entries.len(),
    ensures
        last_wins(entries).contains_key(entries[at].0),
    decreases entries.len(),
{
    if at < entries.len() - 1 {
        assert(entries.drop_last()[at] == entries[at]);
        lemma_last_wins_contains(entries.drop_last(), at);
    }
}

/// Every key of the map is the key of an entry, and the map holds the value
/// of the last such entry.
pub proof fn lemma_last_wins_source<K, V>(entries: Seq<(K, V)>, key: K) -> (at: int)
    requires
        last_wins(entries).contains_key(key),
    ensures
        0 <= at < entries.len(),
        entries[at].0 == key,
        last_wins(entries)[key] == entries[at].1,
        forall|i: int| at < i < entries.len() ==> (#[trigger] entries[i]).0 != key,
    decreases entries.len(),
{
    if entries.last().0 == key {
        entries.len() - 1
    } else {
        let at = lemma_last_wins_source(entries.drop_last(), key);
        assert(entries.drop_last()[at] == entries[at]);
        assert forall|i: int| at < i < entries.len() implies (#[trigger] entries[i]).0 != key by {
            if i < entries.len() - 1 {
                assert(entries.drop_last()[i] == entries[i]);
            }
        }
        at
    }
}

/// Entries that are inserted after others override them key by key.
pub proof fn lemma_last_wins_concat<K, V>(first: Seq<(K, V)>, second: Seq<(K, V)>)
    ensures
        last_wins(first + second) == last_wins(first).union_prefer_right(last_wins(second)),
    decreases second.len(),
{
    if second.len() == 0 {
        assert(first + second =~= first);
        assert(last_wins(first).union_prefer_right(Map::empty()) =~= last_wins(first));
    } else {
        assert((first + second).drop_last() =~= first + second.drop_last());
        assert((first + second).last() == second.last());
        lemma_last_wins_concat(first, second.drop_last());
        assert(last_wins(first).union_prefer_right(last_wins(second.drop_last())).insert(
            second.last().0,
            second.last().1,
        ) =~= last_wins(first).union_prefer_right(last_wins(second)));
    }
}

/// A key as a table compares it: two keys are the same key when they stand
/// for the same value.
pub trait Key: DeepView + Sized {
    fn same_key(&self, other: &Self) -> (r: bool)
        ensures
            r == (self.deep_view() == other.deep_view()),
    ;
}

impl Key for String {
    fn same_key(&self, other: &Self) -> (r: bool) {
        *self == *other
    }
}

/// The values that a sequence of entries stands for.
pub open spec fn entry_views<K: DeepView, V: DeepView>(entries: Seq<(K, V)>) -> Seq<(K::V, V::V)> {
    entries.map_values(|e: (K, V)| (e.0.deep_view(), e.1.deep_view()))
}

/// A table from keys to values.
#[derive(Debug)]
pub struct Table<K, V> {
    entries: Vec<(K, V)>,
}

impl<K: Key, V: DeepView> Table<K, V> {
    /// The entries in the order in which they were added.
    pub closed spec fn history(self) -> Seq<(K::V, V::V)> {
        entry_views(self.entries@)
    }

    /// The map that the table stands for.
    pub open spec fn model(self) -> Map<K::V, V::V> {
        last_wins(self.history())
    }

    pub fn new() -> (r: Self)
        ensures
            r.history() == Seq::<(K::V, V::V)>::empty(),
            r.model() == Map::<K::V, V::V>::empty(),
    {
        let r = Table { entries: Vec::new() };
        assert(r.history() =~= Seq::empty());
        r
    }

    /// Adds an entry; it takes the place of an earlier entry with the same
    /// key.
    pub fn insert(&mut self, key: K, value: V)
        ensures
            final(self).history() == old(self).history().push((key.deep_view(), value.deep_view())),
            final(self).model() == old(self).model().insert(key.deep_view(), value.deep_view()),
    {
        self.entries.push((key, value));
        proof {
            let entry = (key.deep_view(), value.deep_view());
            assert(self.history() =~= old(self).history().push(entry));
            assert(self.history().drop_last() =~= old(self).history());
        }
    }

    /// The value under a key, if the table holds the key.
    pub fn get(&self, key: &K) -> (r: Option<&V>)
        ensures
            r is Some == self.model().contains_key(key.deep_view()),
            r matches Some(value) ==> value.deep_view() == self.model()[key.deep_view()],
    {
        let mut i: usize = self.entries.len();
        while i > 0
            invariant
                i <= self.entries.len(),
                forall|j: int|
                    i <= j < self.entries.len() ==> (#[trigger] self.history()[j]).0
                        != key.deep_view(),
            decreases i,
        {
            i = i - 1;
            if self.entries[i].0.same_key(key) {
                proof {
                    assert(self.history()[i as int].0 == key.deep_view());
                    lemma_last_wins_present(self.history(), i as int);
                }
                return Some(&self.entries[i].1);
            }
        }
        proof {
            lemma_last_wins_absent(self.history(), key.deep_view());
        }
        None
    }
}

} // verus!
