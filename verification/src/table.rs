//! Keyed ledger entries held in memory.

use crate::address::Address;
use vstd::prelude::*;

verus! {

/// A key under which an entry is stored.
pub trait Key: Copy {
    /// Whether two keys are the same.
    fn same(&self, other: &Self) -> (same: bool)
        ensures
            same == (*self == *other),
    ;
}

impl Key for u64 {
    fn same(&self, other: &Self) -> (same: bool) {
        *self == *other
    }
}

impl Key for Address {
    fn same(&self, other: &Self) -> (same: bool) {
        *self == *other
    }
}

/// The map that a list of entries stands for: a later entry shadows an earlier
/// one under the same key.
spec fn entries_map<K, V>(entries: Seq<(K, V)>) -> Map<K, V>
    decreases entries.len(),
{
    if entries.len() == 0 {
        Map::empty()
    } else {
        entries_map(entries.drop_last()).insert(entries.last().0, entries.last().1)
    }
}

/// The entry at `i` is the last one under `key`.
spec fn is_last_under<K, V>(entries: Seq<(K, V)>, key: K, i: int) -> bool {
    &&& 0 <= i < entries.len()
    &&& entries[i].0 == key
    &&& forall|j: int| i < j < entries.len() ==> (#[trigger] entries[j]).0 != key
}

proof fn lemma_absent<K, V>(entries: Seq<(K, V)>, key: K)
    requires
        forall|j: int| 0 <= j < entries.len() ==> (#[trigger] entries[j]).0 != key,
    ensures
        !entries_map(entries).contains_key(key),
    decreases entries.len(),
{
    if entries.len() > 0 {
        let init = entries.drop_last();
        assert forall|j: int| 0 <= j < init.len() implies (#[trigger] init[j]).0 != key by {
            assert(init[j] == entries[j]);
        }
        lemma_absent(init, key);
    }
}

proof fn lemma_present<K, V>(entries: Seq<(K, V)>, key: K, i: int)
    requires
        is_last_under(entries, key, i),
    ensures
        entries_map(entries).contains_key(key),
        entries_map(entries)[key] == entries[i].1,
    decreases entries.len(),
{
    if i < entries.len() - 1 {
        let init = entries.drop_last();
        assert(entries.last().0 != key);
        assert forall|j: int| i < j < init.len() implies (#[trigger] init[j]).0 != key by {
            assert(init[j] == entries[j]);
        }
        lemma_present(init, key, i);
    }
}

proof fn lemma_update<K, V>(entries: Seq<(K, V)>, key: K, value: V, i: int)
    requires
        is_last_under(entries, key, i),
    ensures
        entries_map(entries.update(i, (key, value))) == entries_map(entries).insert(key, value),
    decreases entries.len(),
{
    let updated = entries.update(i, (key, value));
    let init = entries.drop_last();
    if i == entries.len() - 1 {
        assert(updated.drop_last() =~= init);
        assert(entries_map(updated) =~= entries_map(entries).insert(key, value));
    } else {
        assert(entries.last().0 != key);
        assert forall|j: int| i < j < init.len() implies (#[trigger] init[j]).0 != key by {
            assert(init[j] == entries[j]);
        }
        lemma_update(init, key, value, i);
        assert(updated.drop_last() =~= init.update(i, (key, value)));
        assert(entries_map(updated) =~= entries_map(entries).insert(key, value));
    }
}

/// A map from keys to copyable values, backed by a list of entries.
#[derive(Debug)]
pub struct Table<K, V> {
    entries: Vec<(K, V)>,
}

impl<K, V> View for Table<K, V> {
    type V = Map<K, V>;

    closed spec fn view(&self) -> Map<K, V> {
        entries_map(self.entries@)
    }
}

impl<K: Key, V: Copy> Table<K, V> {
    /// An empty table.
    pub fn new() -> (table: Self)
        ensures
            table@ == Map::<K, V>::empty(),
    {
        Table { entries: Vec::new() }
    }

    /// Where the entry that counts for `key` stands.
    fn find(&self, key: &K) -> (found: Option<usize>)
        ensures
            match found {
                Some(i) => is_last_under(self.entries@, *key, i as int),
                None => forall|j: int|
                    0 <= j < self.entries@.len() ==> (#[trigger] self.entries@[j]).0 != *key,
            },
    {
        let mut i: usize = self.entries.len();
        while i > 0
            invariant
                i <= self.entries@.len(),
                forall|j: int|
                    i <= j < self.entries@.len() ==> (#[trigger] self.entries@[j]).0 != *key,
            decreases i,
        {
            i -= 1;
            if self.entries[i].0.same(key) {
                return Some(i);
            }
        }
        None
    }

    /// The value under `key`, if there is one.
    pub fn get(&self, key: &K) -> (value: Option<V>)
        ensures
            value == (if self@.contains_key(*key) {
                Some(self@[*key])
            } else {
                None
            }),
    {
        match self.find(key) {
            Some(i) => {
                proof {
                    lemma_present(self.entries@, *key, i as int);
                }
                Some(self.entries[i].1)
            },
            None => {
                proof {
                    lemma_absent(self.entries@, *key);
                }
                None
            },
        }
    }

    /// Puts `value` under `key`, in place of any value that was there.
    pub fn insert(&mut self, key: K, value: V)
        ensures
            final(self)@ == old(self)@.insert(key, value),
    {
        match self.find(&key) {
            Some(i) => {
                proof {
                    lemma_update(self.entries@, key, value, i as int);
                }
                self.entries[i] = (key, value);
            },
            None => {
                let ghost before = self.entries@;
                self.entries.push((key, value));
                assert(self.entries@.drop_last() =~= before);
            },
        }
    }

    /// Takes away whatever is under `key`.
    pub fn remove(&mut self, key: &K)
        ensures
            final(self)@ == old(self)@.remove(*key),
    {
        let mut kept: Vec<(K, V)> = Vec::new();
        let mut i: usize = 0;
        proof {
            assert(self.entries@.take(0) =~= Seq::empty());
            assert(entries_map(kept@) =~= entries_map(self.entries@.take(0)).remove(*key));
        }
        while i < self.entries.len()
            invariant
                i <= self.entries@.len(),
                entries_map(kept@) == entries_map(self.entries@.take(i as int)).remove(*key),
            decreases self.entries@.len() - i,
        {
            let entry = self.entries[i];
            let ghost before = kept@;
            assert(self.entries@.take(i + 1).drop_last() =~= self.entries@.take(i as int));
            if !entry.0.same(key) {
                kept.push(entry);
                assert(kept@.drop_last() =~= before);
            }
            assert(entries_map(kept@) =~= entries_map(self.entries@.take(i + 1)).remove(*key));
            i += 1;
        }
        assert(self.entries@.take(i as int) =~= self.entries@);
        self.entries = kept;
    }
}

} // verus!
