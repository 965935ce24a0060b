//! A map keyed by 32-byte hashes, as the node keeps its blocks and the
//! status of the extrinsics it was asked to watch: a list of entries whose
//! keys are distinct, looked up by comparing hashes.
use vstd::prelude::*;

use crate::hashing::{hash_eq, Hash32};

verus! {

/// Entries with distinct hashes; inserting under a hash that is there already
/// replaces its value.
pub struct HashKeyed<V> {
    entries: Vec<(Hash32, V)>,
}

/// Whether `key` is the key of some entry.
pub open spec fn has_key<V>(entries: Seq<(Hash32, V)>, key: Hash32) -> bool {
    exists|i: int| 0 <= i < entries.len() && (#[trigger] entries[i]).0 == key
}

/// The map that a list of entries with distinct keys stands for.
pub open spec fn entries_map<V>(entries: Seq<(Hash32, V)>) -> Map<Hash32, V> {
    Map::new(
        |key: Hash32| has_key(entries, key),
        |key: Hash32|
            entries[choose|i: int| 0 <= i < entries.len() && (#[trigger] entries[i]).0 == key].1,
    )
}

/// No two entries share a key.
pub open spec fn distinct_keys<V>(entries: Seq<(Hash32, V)>) -> bool {
    forall|i: int, j: int|
        0 <= i < entries.len() && 0 <= j < entries.len() && i != j ==> (#[trigger] entries[i]).0
            != (#[trigger] entries[j]).0
}

impl<V> HashKeyed<V> {
    #[verifier::type_invariant]
    spec fn keys_are_distinct(self) -> bool {
        distinct_keys(self.entries@)
    }

    /// The map of hashes to values.
    pub closed spec fn map(self) -> Map<Hash32, V> {
        entries_map(self.entries@)
    }

    /// An empty map.
    pub fn new() -> (m: Self)
        ensures
            m.map() == Map::<Hash32, V>::empty(),
    {
        let m = HashKeyed { entries: Vec::new() };
        assert(m.map() =~= Map::<Hash32, V>::empty());
        m
    }

    /// The position of the entry with this key, if there is one.
    fn position(&self, key: &Hash32) -> (pos: Option<usize>)
        ensures
            match pos {
                Some(i) => i < self.entries@.len() && self.entries@[i as int].0 == *key,
                None => !has_key(self.entries@, *key),
            },
    {
        let mut i: usize = 0;
        while i < self.entries.len()
            invariant
                i <= self.entries@.len(),
                forall|j: int| 0 <= j < i ==> (#[trigger] self.entries@[j]).0 != *key,
            decreases self.entries@.len() - i,
        {
            if hash_eq(&self.entries[i].0, key) {
                return Some(i);
            }
            i = i + 1;
        }
        None
    }

    /// The value stored under `key`, if there is one.
    pub fn get(&self, key: &Hash32) -> (value: Option<&V>)
        ensures
            match value {
                Some(v) => self.map().contains_key(*key) && *v == self.map()[*key],
                None => !self.map().contains_key(*key),
            },
    {
        proof {
            use_type_invariant(self);
        }
        match self.position(key) {
            Some(i) => {
                let ghost e = self.entries@;
                assert(has_key(e, *key));
                let ghost c = choose|j: int| 0 <= j < e.len() && (#[trigger] e[j]).0 == *key;
                assert(c == i);
                Some(&self.entries[i].1)
            },
            None => None,
        }
    }

    /// Stores `value` under `key`, replacing what was stored under it.
    pub fn insert(&mut self, key: Hash32, value: V)
        ensures
            final(self).map() == old(self).map().insert(key, value),
    {
        proof {
            use_type_invariant(&*self);
        }
        let ghost old_entries = self.entries@;
        match self.position(&key) {
            Some(i) => {
                let mut entries = Vec::new();
                std::mem::swap(&mut entries, &mut self.entries);
                entries.set(i, (key, value));
                let ghost e = entries@;
                assert(e =~= old_entries.update(i as int, (key, value)));
                assert(distinct_keys(e));
                self.entries = entries;
                assert forall|k: Hash32| #[trigger] has_key(e, k) == has_key(old_entries, k) by {
                    if has_key(old_entries, k) {
                        let j = choose|j: int|
                            0 <= j < old_entries.len() && (#[trigger] old_entries[j]).0 == k;
                        assert(e[j].0 == k);
                    }
                    if has_key(e, k) {
                        let j = choose|j: int| 0 <= j < e.len() && (#[trigger] e[j]).0 == k;
                        assert(old_entries[j].0 == k);
                    }
                }
                assert(entries_map(e) =~= entries_map(old_entries).insert(key, value));
            },
            None => {
                let mut entries = Vec::new();
                std::mem::swap(&mut entries, &mut self.entries);
                entries.push((key, value));
                let ghost e = entries@;
                assert(e =~= old_entries.push((key, value)));
                assert(distinct_keys(e));
                self.entries = entries;
                assert forall|k: Hash32| #[trigger]
                    has_key(e, k) == (has_key(old_entries, k) || k == key) by {
                    if has_key(old_entries, k) {
                        let j = choose|j: int|
                            0 <= j < old_entries.len() && (#[trigger] old_entries[j]).0 == k;
                        assert(e[j].0 == k);
                    }
                    if k == key {
                        assert(e[old_entries.len() as int].0 == k);
                    }
                }
                assert(entries_map(e) =~= entries_map(old_entries).insert(key, value));
            },
        }
    }
}

} // verus!
