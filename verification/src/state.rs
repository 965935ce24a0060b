//! The state of the chain after a block: the top-level storage, held in the
//! in-memory trie backend that the node reads its storage queries from.
use vstd::prelude::*;
use sp_core::Blake2Hasher;
use sp_state_machine::{Backend, InMemoryBackend};
use sp_storage::StateVersion;
use std::collections::BTreeMap;

verus! {

/// A snapshot of the storage after a block, kept in an in-memory trie.
#[verifier::external_body]
pub struct StateSnapshot {
    backend: InMemoryBackend<Blake2Hasher>,
}

/// What a snapshot holds: its top-level storage, from keys to values.
pub uninterp spec fn snapshot_contents(snapshot: StateSnapshot) -> Map<Seq<u8>, Seq<u8>>;

/// Key-value pairs as sequences.
pub open spec fn pairs_view(pairs: Seq<(Vec<u8>, Vec<u8>)>) -> Seq<(Seq<u8>, Seq<u8>)> {
    pairs.map_values(|p: (Vec<u8>, Vec<u8>)| (p.0@, p.1@))
}

/// The storage that a list of key-value pairs describes: a later pair for a
/// key replaces an earlier one.
pub open spec fn pairs_map(pairs: Seq<(Seq<u8>, Seq<u8>)>) -> Map<Seq<u8>, Seq<u8>>
    decreases pairs.len(),
{
    if pairs.len() == 0 {
        Map::empty()
    } else {
        pairs_map(pairs.drop_last()).insert(pairs.last().0, pairs.last().1)
    }
}

/// `InMemoryBackend::<Blake2Hasher>::from((top, StateVersion::V1))` where
/// `top` is the `BTreeMap` collected from the pairs (a later pair for a key
/// replaces an earlier one); the backend then holds exactly those keys and
/// values (its layouts allow empty values).
#[verifier::external_body]
fn backend_from_pairs(pairs: Vec<(Vec<u8>, Vec<u8>)>) -> (snapshot: StateSnapshot)
    ensures
        snapshot_contents(snapshot) == pairs_map(pairs_view(pairs@)),
{
    let top: BTreeMap<Vec<u8>, Vec<u8>> = pairs.into_iter().collect();
    StateSnapshot { backend: InMemoryBackend::<Blake2Hasher>::from((top, StateVersion::V1)) }
}

/// What a storage lookup in the trie gives for a key: `Some(Some(v))` when it
/// finds `v`, `Some(None)` when it finds nothing, `None` when the lookup fails.
pub uninterp spec fn trie_lookup(snapshot: StateSnapshot, key: Seq<u8>) -> Option<Option<Seq<u8>>>;

/// `Backend::storage` on the in-memory trie, a function of the trie and the
/// key. A value it finds is the one stored under the key; when it finds
/// nothing, the key holds nothing. When the trie lookup fails it gives `Err`;
/// nothing is claimed of when that happens.
#[verifier::external_body]
fn backend_storage(snapshot: &StateSnapshot, key: &[u8]) -> (value: Result<Option<Vec<u8>>, String>)
    ensures
        match value {
            Ok(Some(v)) => trie_lookup(*snapshot, key@) == Some(Some(v@)) && snapshot_contents(
                *snapshot,
            ).contains_key(key@) && v@ == snapshot_contents(*snapshot)[key@],
            Ok(None) => trie_lookup(*snapshot, key@) == Some(None::<Seq<u8>>)
                && !snapshot_contents(*snapshot).contains_key(key@),
            Err(_) => trie_lookup(*snapshot, key@) is None,
        },
{
    snapshot.backend.storage(key)
}

/// What a read of `key` gives: the value the lookup found; a failed lookup
/// reads as nothing.
pub open spec fn read_value(snapshot: StateSnapshot, key: Seq<u8>) -> Option<Seq<u8>> {
    match trie_lookup(snapshot, key) {
        Some(Some(v)) => Some(v),
        _ => None,
    }
}

/// `Clone::clone` of the in-memory trie backend: the copy shares the trie,
/// so it holds the same storage and every lookup gives the same.
#[verifier::external_body]
fn backend_clone(snapshot: &StateSnapshot) -> (copy: StateSnapshot)
    ensures
        snapshot_contents(copy) == snapshot_contents(*snapshot),
        forall|key: Seq<u8>| #[trigger] trie_lookup(copy, key) == trie_lookup(*snapshot, key),
{
    StateSnapshot { backend: snapshot.backend.clone() }
}

/// Two snapshots that hold the same storage and answer every lookup alike.
pub open spec fn same_state(a: StateSnapshot, b: StateSnapshot) -> bool {
    &&& snapshot_contents(a) == snapshot_contents(b)
    &&& forall|key: Seq<u8>| #[trigger] trie_lookup(a, key) == trie_lookup(b, key)
}

impl StateSnapshot {
    /// A second handle on the same state.
    pub fn duplicate(&self) -> (copy: Self)
        ensures
            same_state(copy, *self),
    {
        backend_clone(self)
    }

    /// A snapshot holding the given top-level storage.
    pub fn new(top: Vec<(Vec<u8>, Vec<u8>)>) -> (snapshot: Self)
        ensures
            snapshot_contents(snapshot) == pairs_map(pairs_view(top@)),
    {
        backend_from_pairs(top)
    }

    /// The value stored under `key`. A failed trie lookup reads as nothing,
    /// as a missing key does.
    pub fn read(&self, key: &[u8]) -> (value: Option<Vec<u8>>)
        ensures
            match value {
                Some(v) => read_value(*self, key@) == Some(v@),
                None => read_value(*self, key@) is None,
            },
            value matches Some(v) ==> snapshot_contents(*self).contains_key(key@)
                && v@ == snapshot_contents(*self)[key@],
            !snapshot_contents(*self).contains_key(key@) ==> value is None,
    {
        match backend_storage(self, key) {
            Ok(Some(v)) => Some(v),
            _ => None,
        }
    }
}

} // verus!
