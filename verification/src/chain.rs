//! The chain that the node has produced, and what its RPC methods read from
//! and write to it.
use vstd::prelude::*;
use std::collections::HashMap;

use crate::block::{Block, BlockNumber, BlockView, Header, HeaderView};
use crate::hex_text::{
    decode_hex_or_empty, decode_storage_key, hex_bytes_or_empty, key_bytes, prefixed_hex,
    prefixed_hex_text, strippable,
};
use crate::hashing::{blake2_256, blake2_256_of, filled_hash};
use crate::rpc_types::clone_texts;
use vstd::string::*;
use vstd::utf8::encode_utf8;
use crate::hashing::{header_hash_of, Hash32};

use crate::keyed::HashKeyed;
use crate::rpc_types::{
    change_view, changes_view, mock_block_view, texts_view, MockSignedBlock, NumberOrHex,
    StorageChangeSet, TransactionStatus, TransactionStatusView,
};
use crate::state::{
    pairs_map, pairs_view, read_value, same_state, snapshot_contents, StateSnapshot,
};

verus! {

broadcast use vstd::std_specs::hash::group_hash_axioms;

/// The status of an extrinsic, as the node records it.
pub type ExtrinsicStatus = TransactionStatus<Hash32, Hash32>;

/// The view of an extrinsic's status.
pub type ExtrinsicStatusView = TransactionStatusView<Hash32, Hash32>;

/// A block together with the state after it.
pub struct StorageAt {
    pub block: Block,
    pub backend: StateSnapshot,
}

/// A stored block as a value.
pub struct StorageAtView {
    pub block: BlockView,
    pub backend: StateSnapshot,
}

impl View for StorageAt {
    type V = StorageAtView;

    open spec fn view(&self) -> StorageAtView {
        StorageAtView { block: self.block@, backend: self.backend }
    }
}

/// The blocks that the node produced, with the state after each, every one
/// stored under its own hash.
pub struct BlockStore {
    entries: HashKeyed<StorageAt>,
}

impl BlockStore {
    #[verifier::type_invariant]
    spec fn stored_under_own_hashes(self) -> bool {
        forall|h: Hash32| #[trigger]
            self.entries.map().contains_key(h) ==> header_hash_of(
                self.entries.map()[h].block.header@,
            ) == h
    }

    /// The stored blocks by hash.
    pub closed spec fn map(self) -> Map<Hash32, StorageAt> {
        self.entries.map()
    }

    /// No blocks.
    pub fn new() -> (store: Self)
        ensures
            store.map() == Map::<Hash32, StorageAt>::empty(),
    {
        BlockStore { entries: HashKeyed::new() }
    }

    /// The block stored under `hash`, with the state after it, if there is one.
    pub fn get(&self, hash: &Hash32) -> (stored: Option<&StorageAt>)
        ensures
            match stored {
                Some(s) => self.map().contains_key(*hash) && *s == self.map()[*hash],
                None => !self.map().contains_key(*hash),
            },
    {
        self.entries.get(hash)
    }

    /// Stores a block under its hash, replacing what was stored under that
    /// hash; gives the hash.
    pub fn insert(&mut self, stored: StorageAt) -> (hash: Hash32)
        ensures
            hash == header_hash_of(stored.block.header@),
            final(self).map() == old(self).map().insert(hash, stored),
    {
        proof {
            use_type_invariant(&*self);
        }
        let hash = stored.block.hash();
        let mut entries = HashKeyed::new();
        std::mem::swap(&mut entries, &mut self.entries);
        entries.insert(hash, stored);
        self.entries = entries;
        hash
    }

}

/// What the node knows of its chain.
pub struct BlockChainData {
    /// The last block produced.
    pub head: Block,
    /// Every block produced, by hash, with the state after it.
    pub blocks: BlockStore,
    /// The hash of the block produced under each number.
    pub num_to_hash: HashMap<BlockNumber, Hash32>,
    /// Extrinsics submitted since the last block, as `0x`-prefixed hex.
    pub pool: Vec<String>,
    /// The status of each extrinsic that a client watches, by its hash.
    pub extrinsics_status: HashKeyed<ExtrinsicStatus>,
    /// The storage keys that clients subscribed to.
    pub subs_storage_key: Vec<String>,
    /// The state now: after the last block.
    pub state: StateSnapshot,
}

/// The chain as a value.
pub struct ChainView {
    pub head: BlockView,
    pub blocks: Map<Hash32, StorageAtView>,
    pub numbers: Map<BlockNumber, Hash32>,
    pub pool: Seq<Seq<char>>,
    pub statuses: Map<Hash32, ExtrinsicStatusView>,
    pub subscribed: Seq<Seq<char>>,
    pub state: StateSnapshot,
}

/// The statuses as views.
pub open spec fn status_views(m: Map<Hash32, ExtrinsicStatus>) -> Map<Hash32, ExtrinsicStatusView> {
    m.map_values(|s: ExtrinsicStatus| s@)
}

impl View for BlockChainData {
    type V = ChainView;

    open spec fn view(&self) -> ChainView {
        ChainView {
            head: self.head@,
            blocks: self.blocks.map().map_values(|s: StorageAt| s@),
            numbers: self.num_to_hash@,
            pool: texts_view(self.pool@),
            statuses: status_views(self.extrinsics_status.map()),
            subscribed: texts_view(self.subs_storage_key@),
            state: self.state,
        }
    }
}

/// The hash of the head block.
pub open spec fn head_hash(chain: ChainView) -> Hash32 {
    header_hash_of(chain.head.header)
}

/// `chain` holds the genesis block `block` alone, stored under number 0,
/// with the state now as the state after it, and nothing pending, watched or
/// subscribed.
pub open spec fn is_genesis(chain: ChainView, block: BlockView) -> bool {
    let hash = header_hash_of(block.header);
    &&& chain.head == block
    &&& chain.blocks.dom() == set![hash]
    &&& chain.blocks[hash].block == block
    &&& same_state(chain.blocks[hash].backend, chain.state)
    &&& chain.numbers == Map::<BlockNumber, Hash32>::empty().insert(0, hash)
    &&& chain.pool.len() == 0
    &&& chain.statuses == Map::<Hash32, ExtrinsicStatusView>::empty()
    &&& chain.subscribed.len() == 0
}

/// The status updates that producing a block brings: each extrinsic that
/// failed to decode becomes `Invalid`, then the `i`-th extrinsic of the block
/// becomes `InBlock((block, i))`.
pub open spec fn block_status_updates(
    invalid: Seq<Hash32>,
    included: Seq<Hash32>,
    block: Hash32,
) -> Seq<(Hash32, ExtrinsicStatusView)> {
    invalid.map_values(|h: Hash32| (h, TransactionStatusView::Invalid))
        + included.map(|i: int, h: Hash32| (h, TransactionStatusView::InBlock((block, i as usize))))
}

/// Statuses after a list of updates, applied in order.
pub open spec fn apply_status_updates(
    statuses: Map<Hash32, ExtrinsicStatusView>,
    updates: Seq<(Hash32, ExtrinsicStatusView)>,
) -> Map<Hash32, ExtrinsicStatusView>
    decreases updates.len(),
{
    if updates.len() == 0 {
        statuses
    } else {
        apply_status_updates(statuses, updates.drop_last()).insert(
            updates.last().0,
            updates.last().1,
        )
    }
}

/// `after` is the chain `before` once `block` was produced under `number`,
/// where `included` holds one hash per extrinsic of the block, in order: the
/// block is the head, it is stored under its hash and its number, the pool is
/// empty, and the statuses are updated for the extrinsics that were refused
/// (`invalid`) and those that the block holds (`included`). The state after
/// the block is `after.state`, and the stored block holds the same state.
pub open spec fn imported(
    before: ChainView,
    after: ChainView,
    number: BlockNumber,
    block: BlockView,
    invalid: Seq<Hash32>,
    included: Seq<Hash32>,
) -> bool {
    let hash = header_hash_of(block.header);
    &&& included.len() == block.extrinsics.len()
    &&& after.head == block
    &&& after.blocks.dom() == before.blocks.dom().insert(hash)
    &&& forall|h: Hash32|
        #![trigger after.blocks[h]]
        before.blocks.contains_key(h) && h != hash ==> after.blocks[h] == before.blocks[h]
    &&& after.blocks[hash].block == block
    &&& same_state(after.blocks[hash].backend, after.state)
    &&& after.numbers == before.numbers.insert(number, hash)
    &&& after.pool.len() == 0
    &&& after.statuses == apply_status_updates(
        before.statuses,
        block_status_updates(invalid, included, hash),
    )
    &&& after.subscribed == before.subscribed
}

/// The block that a query without a block means: the head.
pub open spec fn target_hash(chain: ChainView, at: Option<Hash32>) -> Hash32 {
    match at {
        Some(h) => h,
        None => head_hash(chain),
    }
}

/// The header of the block `at` (the head when none is given), if the node
/// has that block.
pub open spec fn header_at(chain: ChainView, at: Option<Hash32>) -> Option<HeaderView> {
    let h = target_hash(chain, at);
    if chain.blocks.contains_key(h) {
        Some(chain.blocks[h].block.header)
    } else {
        None
    }
}

/// The hash that a block number or hash names: the hash stored under the
/// number, the hash itself, or the head's hash when none is given.
pub open spec fn named_hash(chain: ChainView, at: Option<NumberOrHex>) -> Option<Hash32> {
    match at {
        Some(NumberOrHex::Number(n)) => if chain.numbers.contains_key(n) {
            Some(chain.numbers[n])
        } else {
            None
        },
        Some(NumberOrHex::Hex(h)) => Some(h),
        None => Some(head_hash(chain)),
    }
}

/// The block that a block number or hash names, if the node has it.
pub open spec fn block_at(chain: ChainView, at: Option<NumberOrHex>) -> Option<BlockView> {
    match named_hash(chain, at) {
        Some(h) => if chain.blocks.contains_key(h) {
            Some(chain.blocks[h].block)
        } else {
            None
        },
        None => None,
    }
}

/// The hash of the block that a block number or hash names.
pub open spec fn block_hash_at(chain: ChainView, at: Option<NumberOrHex>) -> Option<Hash32> {
    match block_at(chain, at) {
        Some(b) => Some(header_hash_of(b.header)),
        None => None,
    }
}

/// The state after block `at`, or the state now when no block is given.
pub open spec fn state_at(chain: ChainView, at: Option<Hash32>) -> Option<StateSnapshot> {
    match at {
        Some(h) => if chain.blocks.contains_key(h) {
            Some(chain.blocks[h].backend)
        } else {
            None
        },
        None => Some(chain.state),
    }
}

/// What a state gives for a storage key in its text form: the value as `0x`
/// and hex.
pub open spec fn storage_text(state: StateSnapshot, key: Seq<char>) -> Option<Seq<char>> {
    match read_value(state, key_bytes(key)) {
        Some(v) => Some(prefixed_hex_text(v)),
        None => None,
    }
}

/// What `state_getStorage` answers for a key at a block (or now).
pub open spec fn storage_at(chain: ChainView, key: Seq<char>, at: Option<Hash32>) -> Option<
    Seq<char>,
> {
    match state_at(chain, at) {
        Some(s) => storage_text(s, key),
        None => None,
    }
}

/// A value read as text under `key` agrees with what `state` holds: a value
/// found is the stored value as `0x` and hex, and a key that the state does
/// not hold reads as nothing.
pub open spec fn agrees_with_contents(
    state: StateSnapshot,
    key: Seq<char>,
    value: Option<Seq<char>>,
) -> bool {
    let k = key_bytes(key);
    &&& value matches Some(v) ==> snapshot_contents(state).contains_key(k) && v
        == prefixed_hex_text(snapshot_contents(state)[k])
    &&& !snapshot_contents(state).contains_key(k) ==> value is None
}

/// Every change in text form agrees with what `state` holds.
pub open spec fn changes_agree(
    state: StateSnapshot,
    changes: Seq<(Seq<char>, Option<Seq<char>>)>,
) -> bool {
    forall|i: int|
        #![trigger changes[i]]
        0 <= i < changes.len() ==> agrees_with_contents(state, changes[i].0, changes[i].1)
}

/// A value read as bytes under `key` agrees with what `state` holds: a value
/// found is the stored value, and a key that the state does not hold reads as
/// nothing.
pub open spec fn bytes_agree(state: StateSnapshot, key: Seq<u8>, value: Option<Seq<u8>>) -> bool {
    &&& value matches Some(v) ==> snapshot_contents(state).contains_key(key) && v
        == snapshot_contents(state)[key]
    &&& !snapshot_contents(state).contains_key(key) ==> value is None
}

/// A change set as its block and its changes in text form.
pub open spec fn change_set_view(cs: StorageChangeSet<Hash32>) -> (
    Hash32,
    Seq<(Seq<char>, Option<Seq<char>>)>,
) {
    (cs.block, changes_view(cs.changes@))
}

/// The value of a storage key in a state, as text.
fn read_text(state: &StateSnapshot, key: &str) -> (value: Option<String>)
    requires
        strippable(key@),
    ensures
        match value {
            Some(v) => storage_text(*state, key@) == Some(v@),
            None => storage_text(*state, key@) is None,
        },
        value is Some ==> snapshot_contents(*state).contains_key(key_bytes(key@)) && value->0@
            == prefixed_hex_text(snapshot_contents(*state)[key_bytes(key@)]),
        !snapshot_contents(*state).contains_key(key_bytes(key@)) ==> value is None,
        read_value(*state, key_bytes(key@)) matches Some(v) ==> (value matches Some(t) && t@
            == prefixed_hex_text(v)),
        read_value(*state, key_bytes(key@)) is None ==> value is None,
{
    let k = decode_storage_key(key);
    match state.read(k.as_slice()) {
        Some(v) => Some(prefixed_hex(v.as_slice())),
        None => None,
    }
}

/// The hash under which an extrinsic in text form is watched and reported:
/// Blake2-256 of its text's bytes.
pub open spec fn extrinsic_hash(xt: Seq<char>) -> Hash32 {
    blake2_256_of(encode_utf8(xt))
}

/// The hash that `author_submitExtrinsic` answers: Blake2-256 of the bytes
/// that the whole text stands for as hex, or of no bytes when it is not hex
/// (as with a `0x` prefix).
pub open spec fn submitted_hash(xt: Seq<char>) -> Hash32 {
    blake2_256_of(hex_bytes_or_empty(encode_utf8(xt)))
}

/// The subscribed keys after a subscription to `key`: added unless there.
pub open spec fn with_key(keys: Seq<Seq<char>>, key: Seq<char>) -> Seq<Seq<char>> {
    if keys.contains(key) {
        keys
    } else {
        keys.push(key)
    }
}

/// The subscribed keys after a subscription to `new`, key by key.
pub open spec fn with_keys(keys: Seq<Seq<char>>, new: Seq<Seq<char>>) -> Seq<Seq<char>>
    decreases new.len(),
{
    if new.len() == 0 {
        keys
    } else {
        with_key(with_keys(keys, new.drop_last()), new.last())
    }
}

/// What a watcher of the extrinsic with hash `k` is given by `chain`: its
/// status and whether it is the last one to send (it is unless still
/// `Ready`); nothing when the node has no status for it.
pub open spec fn watch_step_at(chain: ChainView, k: Hash32) -> Option<
    (ExtrinsicStatusView, bool),
> {
    if chain.statuses.contains_key(k) {
        Some((chain.statuses[k], !(chain.statuses[k] is Ready)))
    } else {
        None
    }
}

/// What a watcher of an extrinsic does next.
pub enum WatchStep {
    /// Send the status; when `last`, stop watching after it.
    Send { status: ExtrinsicStatus, last: bool },
    /// Stop: the node has no status for the extrinsic.
    Stop,
}

/// The changes of a list of keys as read from a state, in text form.
pub open spec fn key_changes(state: StateSnapshot, keys: Seq<Seq<char>>) -> Seq<
    (Seq<char>, Option<Seq<char>>),
> {
    keys.map_values(|k: Seq<char>| (k, storage_text(state, k)))
}

/// Whether every key can have its first two bytes cut off.
pub open spec fn all_strippable(keys: Seq<Seq<char>>) -> bool {
    forall|i: int| 0 <= i < keys.len() ==> strippable(#[trigger] keys[i])
}

/// One change set per key, each naming `block` and holding that key's value
/// in `state`.
fn change_sets(state: &StateSnapshot, block: Hash32, keys: &Vec<String>) -> (sets: Vec<
    StorageChangeSet<Hash32>,
>)
    requires
        all_strippable(texts_view(keys@)),
    ensures
        sets@.len() == keys@.len(),
        forall|i: int|
            0 <= i < keys@.len() ==> #[trigger] change_set_view(sets@[i]) == (
                block,
                seq![(keys@[i]@, storage_text(*state, keys@[i]@))],
            ) && agrees_with_contents(*state, keys@[i]@, storage_text(*state, keys@[i]@)),
{
    let mut sets: Vec<StorageChangeSet<Hash32>> = Vec::new();
    let mut i: usize = 0;
    while i < keys.len()
        invariant
            i <= keys@.len(),
            all_strippable(texts_view(keys@)),
            sets@.len() == i,
            forall|j: int|
                0 <= j < i ==> #[trigger] change_set_view(sets@[j]) == (
                    block,
                    seq![(keys@[j]@, storage_text(*state, keys@[j]@))],
                ) && agrees_with_contents(*state, keys@[j]@, storage_text(*state, keys@[j]@)),
        decreases keys@.len() - i,
    {
        assert(strippable(texts_view(keys@)[i as int]));
        let value = read_text(state, keys[i].as_str());
        let set = StorageChangeSet { block, changes: vec![(keys[i].clone(), value)] };
        assert(changes_view(set.changes@) =~= seq![(keys@[i as int]@, storage_text(*state, keys@[i as int]@))]);
        sets.push(set);
        i = i + 1;
    }
    sets
}

/// Whether the text equals one of the texts.
fn contains_text(texts: &Vec<String>, text: &String) -> (found: bool)
    ensures
        found == texts_view(texts@).contains(text@),
{
    let mut i: usize = 0;
    while i < texts.len()
        invariant
            i <= texts@.len(),
            forall|j: int| 0 <= j < i ==> texts@[j]@ != text@,
        decreases texts@.len() - i,
    {
        if texts[i] == *text {
            assert(texts_view(texts@)[i as int] == text@);
            return true;
        }
        i = i + 1;
    }
    proof {
        if texts_view(texts@).contains(text@) {
            let j = choose|j: int| 0 <= j < texts_view(texts@).len() && texts_view(texts@)[j] == text@;
            assert(texts@[j]@ == text@);
        }
    }
    false
}

/// A storage change that the client API reports: the child trie (none for
/// the top-level storage), the key, and the new value (none when removed).
pub type StorageChange = (Option<Vec<u8>>, Vec<u8>, Option<Vec<u8>>);

/// Optional bytes as a sequence.
pub open spec fn opt_bytes(b: Option<Vec<u8>>) -> Option<Seq<u8>> {
    match b {
        Some(v) => Some(v@),
        None => None,
    }
}

/// Storage changes with their bytes as sequences.
pub open spec fn storage_changes_view(changes: Seq<StorageChange>) -> Seq<
    (Option<Seq<u8>>, Seq<u8>, Option<Seq<u8>>),
> {
    changes.map_values(|c: StorageChange| (opt_bytes(c.0), c.1@, opt_bytes(c.2)))
}

/// The top-level changes among `changes`, in order, with key and value as
/// `0x` and hex.
pub open spec fn top_changes(changes: Seq<(Option<Seq<u8>>, Seq<u8>, Option<Seq<u8>>)>) -> Seq<
    (Seq<char>, Option<Seq<char>>),
>
    decreases changes.len(),
{
    if changes.len() == 0 {
        Seq::empty()
    } else {
        let rest = top_changes(changes.drop_last());
        let (child, key, value) = changes.last();
        if child is None {
            rest.push(
                (
                    prefixed_hex_text(key),
                    match value {
                        Some(v) => Some(prefixed_hex_text(v)),
                        None => None,
                    },
                ),
            )
        } else {
            rest
        }
    }
}

/// What a storage subscriber receives for a storage notification of block
/// `block`: its top-level changes in text form; nothing when there are none.
pub fn notification_change_set(block: Hash32, changes: Vec<StorageChange>) -> (set: Option<
    StorageChangeSet<Hash32>,
>)
    ensures
        top_changes(storage_changes_view(changes@)).len() == 0 ==> set is None,
        top_changes(storage_changes_view(changes@)).len() > 0 ==> (set matches Some(cs)
            && change_set_view(cs) == (block, top_changes(storage_changes_view(changes@)))),
        set matches Some(cs) ==> cs.changes@.len() > 0,
{
    let ghost all = storage_changes_view(changes@);
    let mut out: Vec<(String, Option<String>)> = Vec::new();
    let mut i: usize = 0;
    while i < changes.len()
        invariant
            i <= changes@.len(),
            all == storage_changes_view(changes@),
            changes_view(out@) == top_changes(all.take(i as int)),
        decreases changes@.len() - i,
    {
        proof {
            assert(all.take(i + 1).drop_last() =~= all.take(i as int));
        }
        let (child, key, value) = (&changes[i].0, &changes[i].1, &changes[i].2);
        if child.is_none() {
            let key_text = prefixed_hex(key.as_slice());
            let value_text = match value {
                Some(v) => Some(prefixed_hex(v.as_slice())),
                None => None,
            };
            let ghost before = out@;
            out.push((key_text, value_text));
            assert(changes_view(out@) =~= changes_view(before).push(change_view((key_text, value_text))));
        }
        i = i + 1;
    }
    assert(all.take(i as int) =~= all);
    if out.len() == 0 {
        None
    } else {
        Some(StorageChangeSet { block, changes: out })
    }
}

proof fn lemma_apply_one_more(
    statuses: Map<Hash32, ExtrinsicStatusView>,
    updates: Seq<(Hash32, ExtrinsicStatusView)>,
    k: int,
)
    requires
        0 <= k < updates.len(),
    ensures
        apply_status_updates(statuses, updates.take(k + 1)) == apply_status_updates(
            statuses,
            updates.take(k),
        ).insert(updates[k].0, updates[k].1),
{
    assert(updates.take(k + 1).drop_last() =~= updates.take(k));
}

/// Applies the status updates of a produced block, in order.
fn record_block_statuses(
    statuses: &mut HashKeyed<ExtrinsicStatus>,
    invalid: &Vec<Hash32>,
    included: &Vec<Hash32>,
    hash: Hash32,
)
    ensures
        status_views(final(statuses).map()) == apply_status_updates(
            status_views(old(statuses).map()),
            block_status_updates(invalid@, included@, hash),
        ),
{
    let ghost before = status_views(statuses.map());
    let ghost updates = block_status_updates(invalid@, included@, hash);
    assert(updates.take(0) =~= Seq::<(Hash32, ExtrinsicStatusView)>::empty());
    let mut i: usize = 0;
    while i < invalid.len()
        invariant
            i <= invalid@.len(),
            updates == block_status_updates(invalid@, included@, hash),
            status_views(statuses.map()) == apply_status_updates(before, updates.take(i as int)),
        decreases invalid@.len() - i,
    {
        let ghost m = statuses.map();
        statuses.insert(invalid[i], TransactionStatus::Invalid);
        proof {
            lemma_apply_one_more(before, updates, i as int);
            assert(status_views(statuses.map()) =~= status_views(m).insert(
                invalid@[i as int],
                TransactionStatusView::Invalid,
            ));
        }
        i = i + 1;
    }
    let mut j: usize = 0;
    while j < included.len()
        invariant
            j <= included@.len(),
            i == invalid@.len(),
            updates == block_status_updates(invalid@, included@, hash),
            status_views(statuses.map()) == apply_status_updates(before, updates.take(i + j)),
        decreases included@.len() - j,
    {
        let ghost m = statuses.map();
        statuses.insert(included[j], TransactionStatus::InBlock((hash, j)));
        proof {
            lemma_apply_one_more(before, updates, i + j);
            assert(updates[i + j] == (
                included@[j as int],
                TransactionStatusView::<Hash32, Hash32>::InBlock((hash, j)),
            ));
            assert(status_views(statuses.map()) =~= status_views(m).insert(
                included@[j as int],
                TransactionStatusView::InBlock((hash, j)),
            ));
        }
        j = j + 1;
    }
    assert(updates.take(i + j) =~= updates);
}

impl BlockChainData {
    /// The chain of the genesis block alone, with `state` after it. The
    /// genesis block is stored under number 0.
    pub fn genesis(block: Block, state: Vec<(Vec<u8>, Vec<u8>)>) -> (chain: Self)
        ensures
            is_genesis(chain@, block@),
            snapshot_contents(chain@.state) == pairs_map(pairs_view(state@)),
    {
        let backend = StateSnapshot::new(state);
        let mut blocks = BlockStore::new();
        let hash = blocks.insert(StorageAt { block: block.clone(), backend: backend.duplicate() });
        let mut num_to_hash = HashMap::new();
        num_to_hash.insert(0, hash);
        let chain = BlockChainData {
            head: block,
            blocks,
            num_to_hash,
            pool: Vec::new(),
            extrinsics_status: HashKeyed::new(),
            subs_storage_key: Vec::new(),
            state: backend,
        };
        assert(chain@.blocks.dom() =~= set![header_hash_of(block@.header)]);
        assert(chain@.statuses =~= Map::<Hash32, ExtrinsicStatusView>::empty());
        chain
    }

    /// Records a produced block: `block`, produced under `number`, with
    /// `state` after it; `invalid` are the hashes of the pending extrinsics
    /// that could not be decoded and `included` those of the block's
    /// extrinsics, in order. Gives the block's hash.
    pub fn import_block(
        &mut self,
        number: BlockNumber,
        block: Block,
        state: Vec<(Vec<u8>, Vec<u8>)>,
        invalid: Vec<Hash32>,
        included: Vec<Hash32>,
    ) -> (hash: Hash32)
        requires
            included@.len() == block@.extrinsics.len(),
        ensures
            hash == header_hash_of(block@.header),
            imported(old(self)@, final(self)@, number, block@, invalid@, included@),
            snapshot_contents(final(self)@.state) == pairs_map(pairs_view(state@)),
    {
        let ghost before = self@;
        let backend = StateSnapshot::new(state);
        self.pool = Vec::new();
        let hash = self.blocks.insert(
            StorageAt { block: block.clone(), backend: backend.duplicate() },
        );
        self.num_to_hash.insert(number, hash);
        self.head = block;
        self.state = backend;
        record_block_statuses(&mut self.extrinsics_status, &invalid, &included, hash);
        assert(self@.pool =~= Seq::<Seq<char>>::empty());
        assert(self@.blocks.dom() =~= before.blocks.dom().insert(hash));
        hash
    }

    /// The hash of the head block (the finalized head).
    pub fn finalized_head(&self) -> (hash: Hash32)
        ensures
            hash == head_hash(self@),
    {
        self.head.hash()
    }

    /// The header of block `hash`, or of the head when none is given.
    pub fn header(&self, hash: Option<Hash32>) -> (header: Option<Header>)
        ensures
            match header {
                Some(h) => header_at(self@, hash) == Some(h@),
                None => header_at(self@, hash) is None,
            },
            header matches Some(x) ==> (self@.blocks.contains_key(target_hash(self@, hash))
                && x@ == self@.blocks[target_hash(self@, hash)].block.header),
            !self@.blocks.contains_key(target_hash(self@, hash)) ==> header is None,
            hash matches Some(h) ==> (!self@.blocks.contains_key(h) ==> header is None),
    {
        let h = match hash {
            Some(h) => h,
            None => self.head.hash(),
        };
        match self.blocks.get(&h) {
            Some(s) => Some(s.block.header.clone()),
            None => None,
        }
    }

    /// The hash that a block number or hash names, when the number is known.
    fn named_hash(&self, hash: Option<NumberOrHex>) -> (h: Option<Hash32>)
        ensures
            h == named_hash(self@, hash),
    {
        match hash {
            Some(NumberOrHex::Number(n)) => match self.num_to_hash.get(&n) {
                Some(h) => Some(*h),
                None => None,
            },
            Some(NumberOrHex::Hex(h)) => Some(h),
            None => Some(self.head.hash()),
        }
    }

    /// The block that a number or hash names (the head when none is given),
    /// with its extrinsics as `0x`-prefixed hex and no justifications.
    pub fn block(&self, hash: Option<NumberOrHex>) -> (block: Option<MockSignedBlock>)
        ensures
            match block {
                Some(b) => block_at(self@, hash) matches Some(v) && b.block@ == mock_block_view(v)
                    && b.justifications is None,
                None => block_at(self@, hash) is None,
            },
            block matches Some(b) ==> (named_hash(self@, hash) matches Some(h)
                && self@.blocks.contains_key(h) && b.block.header@ == self@.blocks[h].block.header
                && b.block.extrinsics@.len() == self@.blocks[h].block.extrinsics.len() && forall|j: int|
                0 <= j < b.block.extrinsics@.len() ==> #[trigger] b.block.extrinsics@[j]@
                    == prefixed_hex_text(self@.blocks[h].block.extrinsics[j])),
    {
        let h = match self.named_hash(hash) {
            Some(h) => h,
            None => return None,
        };
        match self.blocks.get(&h) {
            Some(s) => Some(MockSignedBlock::new(s.block.clone(), None)),
            None => None,
        }
    }

    /// The hash of the block that a number or hash names (the head when none
    /// is given).
    pub fn block_hash(&self, hash: Option<NumberOrHex>) -> (block_hash: Option<Hash32>)
        ensures
            block_hash == block_hash_at(self@, hash),
            block_hash == (match named_hash(self@, hash) {
                Some(h) => if self@.blocks.contains_key(h) {
                    Some(h)
                } else {
                    None
                },
                None => None,
            }),
            hash is None ==> block_hash == (if self@.blocks.contains_key(head_hash(self@)) {
                Some(head_hash(self@))
            } else {
                None
            }),
    {
        proof {
            use_type_invariant(&self.blocks);
        }
        let h = match self.named_hash(hash) {
            Some(h) => h,
            None => return None,
        };
        match self.blocks.get(&h) {
            Some(s) => Some(s.block.hash()),
            None => None,
        }
    }

    /// The value of a storage key (`0x` and hex) at block `hash`, or now when
    /// no block is given, as `0x` and hex. Nothing for a block the node does
    /// not have, or a key that holds nothing there.
    pub fn storage(&self, key: String, hash: Option<Hash32>) -> (value: Option<String>)
        requires
            strippable(key@),
        ensures
            match value {
                Some(v) => storage_at(self@, key@, hash) == Some(v@),
                None => storage_at(self@, key@, hash) is None,
            },
            value is Some ==> (state_at(self@, hash) matches Some(s) && snapshot_contents(
                s,
            ).contains_key(key_bytes(key@)) && value->0@ == prefixed_hex_text(
                snapshot_contents(s)[key_bytes(key@)],
            )),
            state_at(self@, hash) matches Some(s) && !snapshot_contents(s).contains_key(
                key_bytes(key@),
            ) ==> value is None,
            state_at(self@, hash) matches Some(s) ==> (read_value(s, key_bytes(key@)) matches Some(
                v,
            ) ==> (value matches Some(t) && t@ == prefixed_hex_text(v))),
            state_at(self@, hash) matches Some(s) ==> (read_value(s, key_bytes(key@)) is None
                ==> value is None),
            state_at(self@, hash) is None ==> value is None,
    {
        match hash {
            Some(h) => match self.blocks.get(&h) {
                Some(s) => read_text(&s.backend, key.as_str()),
                None => None,
            },
            None => read_text(&self.state, key.as_str()),
        }
    }

    /// The extrinsics waiting for the next block.
    pub fn pending_extrinsics(&self) -> (pending: Vec<String>)
        ensures
            texts_view(pending@) == self@.pool,
    {
        clone_texts(&self.pool)
    }

    /// Adds an extrinsic to the pool; gives the hash that the node answers for
    /// it.
    pub fn submit_extrinsic(&mut self, extrinsic: String) -> (hash: Hash32)
        ensures
            hash == submitted_hash(extrinsic@),
            final(self)@ == (ChainView { pool: old(self)@.pool.push(extrinsic@), ..old(self)@ }),
    {
        let ext = decode_hex_or_empty(extrinsic.as_str().as_bytes());
        self.pool.push(extrinsic);
        assert(texts_view(self.pool@) =~= old(self)@.pool.push(extrinsic@));
        blake2_256(ext.as_slice())
    }

    /// Adds an extrinsic to the pool and starts watching it: its status is
    /// `Ready`. Gives the hash under which it is watched.
    pub fn watch_extrinsic(&mut self, extrinsic: String) -> (hash: Hash32)
        ensures
            hash == extrinsic_hash(extrinsic@),
            final(self)@ == (ChainView {
                pool: old(self)@.pool.push(extrinsic@),
                statuses: old(self)@.statuses.insert(hash, TransactionStatusView::Ready),
                ..old(self)@
            }),
    {
        let xt_hash = blake2_256(extrinsic.as_str().as_bytes());
        self.pool.push(extrinsic);
        self.extrinsics_status.insert(xt_hash, TransactionStatus::Ready);
        assert(texts_view(self.pool@) =~= old(self)@.pool.push(extrinsic@));
        assert(status_views(self.extrinsics_status.map()) =~= old(self)@.statuses.insert(
            xt_hash,
            TransactionStatusView::Ready,
        ));
        xt_hash
    }

    /// What a watcher of the extrinsic with this hash sends next: its status,
    /// the last one unless it is still `Ready`; or nothing when the node has
    /// no status for it.
    pub fn watch_step(&self, xt_hash: &Hash32) -> (step: WatchStep)
        ensures
            match step {
                WatchStep::Send { status, last } => self@.statuses.contains_key(*xt_hash)
                    && status@ == self@.statuses[*xt_hash] && last == !(
                status@ is Ready),
                WatchStep::Stop => !self@.statuses.contains_key(*xt_hash),
            },
            match step {
                WatchStep::Send { status, last } => watch_step_at(self@, *xt_hash) == Some(
                    (status@, last),
                ),
                WatchStep::Stop => watch_step_at(self@, *xt_hash) is None,
            },
    {
        match self.extrinsics_status.get(xt_hash) {
            Some(status) => {
                let last = match status {
                    TransactionStatus::Ready => false,
                    _ => true,
                };
                WatchStep::Send { status: status.clone(), last }
            },
            None => WatchStep::Stop,
        }
    }

    /// The header of the head block, as new-head subscribers receive it.
    pub fn head_header(&self) -> (header: Header)
        ensures
            header@ == self@.head.header,
    {
        self.head.header.clone()
    }

    /// Subscribes to storage keys: each key not subscribed yet is added.
    pub fn register_storage_keys(&mut self, keys: Option<Vec<String>>)
        ensures
            final(self)@ == (ChainView {
                subscribed: match keys {
                    Some(k) => with_keys(old(self)@.subscribed, texts_view(k@)),
                    None => old(self)@.subscribed,
                },
                ..old(self)@
            }),
    {
        if let Some(keys) = keys {
            let mut i: usize = 0;
            while i < keys.len()
                invariant
                    i <= keys@.len(),
                    self@ == (ChainView {
                        subscribed: with_keys(
                            old(self)@.subscribed,
                            texts_view(keys@).take(i as int),
                        ),
                        ..old(self)@
                    }),
                decreases keys@.len() - i,
            {
                proof {
                    assert(texts_view(keys@).take(i + 1).drop_last() =~= texts_view(keys@).take(
                        i as int,
                    ));
                }
                let ghost subs = self.subs_storage_key@;
                if !contains_text(&self.subs_storage_key, &keys[i]) {
                    self.subs_storage_key.push(keys[i].clone());
                    assert(texts_view(self.subs_storage_key@) =~= texts_view(subs).push(
                        keys@[i as int]@,
                    ));
                }
                assert(texts_view(keys@).take(i + 1).last() == keys@[i as int]@);
                i = i + 1;
            }
            assert(texts_view(keys@).take(keys@.len() as int) =~= texts_view(keys@));
        }
    }

    /// The storage changes for the subscribed keys after a block: per key,
    /// the bytes it names and its value in the state now.
    pub fn storage_changes(&self) -> (changes: Vec<(Vec<u8>, Option<Vec<u8>>)>)
        requires
            all_strippable(self@.subscribed),
        ensures
            changes@.len() == self@.subscribed.len(),
            forall|i: int|
                0 <= i < changes@.len() ==> #[trigger] changes@[i].0@ == key_bytes(
                    self@.subscribed[i],
                ) && match changes@[i].1 {
                    Some(v) => read_value(self@.state, key_bytes(self@.subscribed[i])) == Some(v@),
                    None => read_value(self@.state, key_bytes(self@.subscribed[i])) is None,
                } && bytes_agree(self@.state, changes@[i].0@, opt_bytes(changes@[i].1)),
    {
        let mut changes: Vec<(Vec<u8>, Option<Vec<u8>>)> = Vec::new();
        let mut i: usize = 0;
        while i < self.subs_storage_key.len()
            invariant
                i <= self@.subscribed.len(),
                all_strippable(self@.subscribed),
                changes@.len() == i,
                forall|j: int|
                    0 <= j < i ==> #[trigger] changes@[j].0@ == key_bytes(self@.subscribed[j])
                        && match changes@[j].1 {
                        Some(v) => read_value(self@.state, key_bytes(self@.subscribed[j]))
                            == Some(v@),
                        None => read_value(self@.state, key_bytes(self@.subscribed[j])) is None,
                    } && bytes_agree(self@.state, changes@[j].0@, opt_bytes(changes@[j].1)),
            decreases self@.subscribed.len() - i,
        {
            assert(strippable(self@.subscribed[i as int]));
            let k = decode_storage_key(self.subs_storage_key[i].as_str());
            let value = self.state.read(k.as_slice());
            changes.push((k, value));
            i = i + 1;
        }
        changes
    }

    /// The change set that a new storage subscription starts with: the keys'
    /// values now, under the zero block hash. Nothing without keys.
    pub fn initial_storage_changes(&self, keys: Option<Vec<String>>) -> (set: Option<
        StorageChangeSet<Hash32>,
    >)
        requires
            keys matches Some(k) ==> all_strippable(texts_view(k@)),
        ensures
            match keys {
                Some(k) if k@.len() > 0 => set matches Some(cs) && change_set_view(cs) == (
                    filled_hash(0),
                    key_changes(self@.state, texts_view(k@)),
                ),
                _ => set is None,
            },
            set matches Some(cs) ==> cs.changes@.len() > 0 && changes_agree(
                self@.state,
                change_set_view(cs).1,
            ),
            set matches Some(cs) ==> (keys matches Some(k) && cs.changes@.len() == k@.len()
                && forall|i: int|
                #![trigger cs.changes@[i]]
                0 <= i < k@.len() ==> cs.changes@[i].0@ == k@[i]@ && match read_value(
                    self@.state,
                    key_bytes(k@[i]@),
                ) {
                    Some(v) => cs.changes@[i].1 matches Some(t) && t@ == prefixed_hex_text(v),
                    None => cs.changes@[i].1 is None,
                }),
    {
        let keys = match keys {
            Some(k) => k,
            None => return None,
        };
        let mut changes: Vec<(String, Option<String>)> = Vec::new();
        let mut i: usize = 0;
        while i < keys.len()
            invariant
                i <= keys@.len(),
                all_strippable(texts_view(keys@)),
                changes_view(changes@) == key_changes(self@.state, texts_view(keys@).take(i as int)),
                changes_agree(self@.state, changes_view(changes@)),
            decreases keys@.len() - i,
        {
            assert(strippable(texts_view(keys@)[i as int]));
            let value = read_text(&self.state, keys[i].as_str());
            let ghost before = changes@;
            let key = keys[i].clone();
            assert(change_view((key, value)) == (keys@[i as int]@, storage_text(
                self@.state,
                keys@[i as int]@,
            )));
            changes.push((key, value));
            assert(changes_view(changes@) =~= changes_view(before).push(change_view((key, value))));
            assert(texts_view(keys@).take(i + 1) =~= texts_view(keys@).take(i as int).push(
                keys@[i as int]@,
            ));
            assert(changes_view(changes@) =~= key_changes(
                self@.state,
                texts_view(keys@).take(i + 1),
            ));
            i = i + 1;
        }
        assert(texts_view(keys@).take(keys@.len() as int) =~= texts_view(keys@));
        proof {
            assert(changes_view(changes@).len() == changes@.len());
            assert(changes@.len() == keys@.len());
            assert forall|i: int| #![trigger changes@[i]] 0 <= i < keys@.len() implies changes@[i].0@
                == keys@[i]@ && match read_value(self@.state, key_bytes(keys@[i]@)) {
                Some(v) => changes@[i].1 matches Some(t) && t@ == prefixed_hex_text(v),
                None => changes@[i].1 is None,
            } by {
                assert(changes_view(changes@)[i] == key_changes(self@.state, texts_view(keys@))[i]);
                assert(change_view(changes@[i]) == (keys@[i]@, storage_text(self@.state, keys@[i]@)));
            }
        }
        if changes.len() == 0 {
            None
        } else {
            Some(StorageChangeSet { block: [0u8; 32], changes })
        }
    }

    /// One change set per key at block `at` (or now, at the head, when none is
    /// given); none at all for a block the node does not have.
    pub fn query_storage_at(&self, keys: Vec<String>, at: Option<Hash32>) -> (sets: Vec<
        StorageChangeSet<Hash32>,
    >)
        requires
            state_at(self@, at) is Some ==> all_strippable(texts_view(keys@)),
        ensures
            state_at(self@, at) is None ==> sets@.len() == 0,
            state_at(self@, at) is Some ==> sets@.len() == keys@.len(),
            state_at(self@, at) is Some ==> forall|i: int|
                0 <= i < keys@.len() ==> #[trigger] change_set_view(sets@[i]) == (
                    target_hash(self@, at),
                    seq![(keys@[i]@, storage_at(self@, keys@[i]@, at))],
                ),
            state_at(self@, at) matches Some(s) ==> forall|i: int|
                0 <= i < sets@.len() ==> changes_agree(s, #[trigger] change_set_view(sets@[i]).1),
    {
        let sets = match at {
            None => change_sets(&self.state, self.head.hash(), &keys),
            Some(h) => match self.blocks.get(&h) {
                Some(s) => change_sets(&s.backend, h, &keys),
                None => Vec::new(),
            },
        };
        proof {
            if let Some(s) = state_at(self@, at) {
                assert forall|i: int| 0 <= i < sets@.len() implies changes_agree(
                    s,
                    #[trigger] change_set_view(sets@[i]).1,
                ) by {
                    let changes = change_set_view(sets@[i]).1;
                    assert(changes.len() == 1);
                    assert(changes[0] == (keys@[i]@, storage_text(s, keys@[i]@)));
                }
            }
        }
        sets
    }
}

} // verus!
