//! What holds of the node across its operations.
use vstd::prelude::*;

use crate::block::{BlockNumber, BlockView};
use crate::chain::{
    apply_status_updates, block_at, block_hash_at, block_status_updates, extrinsic_hash, head_hash,
    header_at, imported, is_genesis, key_changes, state_at, storage_at, target_hash, watch_step_at,
    with_keys, ChainView, ExtrinsicStatusView,
};
use crate::hex_text::{key_bytes, prefixed_hex_text};
use crate::rpc_types::mock_block_view;
use crate::state::StateSnapshot;
use crate::hashing::{header_hash_of, Hash32};
use crate::production::{decoded_entries, epoch_millis, refused_hashes};
use crate::rpc_types::{NumberOrHex, TransactionStatusView};
use crate::state::{read_value, same_state};

verus! {

/// The index of the last update for `key`, if there is one.
pub open spec fn last_update_for(updates: Seq<(Hash32, ExtrinsicStatusView)>, key: Hash32) -> Option<
    int,
>
    decreases updates.len(),
{
    if updates.len() == 0 {
        None
    } else if updates.last().0 == key {
        Some(updates.len() - 1)
    } else {
        last_update_for(updates.drop_last(), key)
    }
}

proof fn lemma_last_update_for(updates: Seq<(Hash32, ExtrinsicStatusView)>, key: Hash32)
    ensures
        match last_update_for(updates, key) {
            Some(i) => 0 <= i < updates.len() && updates[i].0 == key && forall|j: int|
                i < j < updates.len() ==> updates[j].0 != key,
            None => forall|j: int| 0 <= j < updates.len() ==> updates[j].0 != key,
        },
    decreases updates.len(),
{
    if updates.len() > 0 {
        let d = updates.drop_last();
        lemma_last_update_for(d, key);
        assert(forall|j: int| 0 <= j < d.len() ==> d[j] == updates[j]);
    }
}

/// Applying updates leaves each key with its last update, or as it was.
proof fn lemma_apply_status_updates(
    statuses: Map<Hash32, ExtrinsicStatusView>,
    updates: Seq<(Hash32, ExtrinsicStatusView)>,
    key: Hash32,
)
    ensures
        match last_update_for(updates, key) {
            Some(i) => apply_status_updates(statuses, updates).contains_key(key)
                && apply_status_updates(statuses, updates)[key] == updates[i].1,
            None => apply_status_updates(statuses, updates).contains_key(key)
                == statuses.contains_key(key) && (statuses.contains_key(key)
                ==> apply_status_updates(statuses, updates)[key] == statuses[key]),
        },
    decreases updates.len(),
{
    if updates.len() > 0 {
        let d = updates.drop_last();
        lemma_apply_status_updates(statuses, d, key);
        lemma_last_update_for(d, key);
        if updates.last().0 != key {
            if let Some(i) = last_update_for(d, key) {
                assert(d[i] == updates[i]);
            }
        }
    }
}

/// A node that has just started answers with the genesis block when no block
/// is named and under number 0, and has no other block.
pub proof fn law_genesis_answers(chain: ChainView, block: BlockView)
    requires
        is_genesis(chain, block),
    ensures
        ({
            let hash = header_hash_of(block.header);
            &&& head_hash(chain) == hash
            &&& header_at(chain, None) == Some(block.header)
            &&& block_at(chain, Some(NumberOrHex::Number(0))) == Some(block)
            &&& block_hash_at(chain, Some(NumberOrHex::Number(0))) == Some(hash)
            &&& block_hash_at(chain, None) == Some(hash)
            &&& forall|n: BlockNumber| n != 0 ==> #[trigger] block_at(
                chain,
                Some(NumberOrHex::Number(n)),
            ) is None
            &&& forall|h: Hash32| h != hash ==> #[trigger] header_at(chain, Some(h)) is None
        }),
{
    let hash = header_hash_of(block.header);
    assert(chain.blocks.contains_key(hash));
}

/// Every block number the chain knows names a block it has, and the head is
/// one of its blocks.
pub open spec fn well_linked(chain: ChainView) -> bool {
    &&& chain.blocks.contains_key(head_hash(chain))
    &&& forall|n: BlockNumber| #[trigger]
        chain.numbers.contains_key(n) ==> chain.blocks.contains_key(chain.numbers[n])
}

/// A node that has just started is well linked.
pub proof fn law_genesis_is_well_linked(chain: ChainView, block: BlockView)
    requires
        is_genesis(chain, block),
    ensures
        well_linked(chain),
{
    assert(chain.blocks.contains_key(header_hash_of(block.header)));
}

/// Producing a block keeps the chain well linked, and every number known
/// before stays known.
pub proof fn law_import_keeps_links(
    before: ChainView,
    after: ChainView,
    number: BlockNumber,
    block: BlockView,
    invalid: Seq<Hash32>,
    included: Seq<Hash32>,
)
    requires
        well_linked(before),
        imported(before, after, number, block, invalid, included),
    ensures
        well_linked(after),
        forall|n: BlockNumber| #[trigger]
            before.numbers.contains_key(n) ==> after.numbers.contains_key(n),
{
    let hash = header_hash_of(block.header);
    assert(after.blocks.dom() == before.blocks.dom().insert(hash));
    assert forall|n: BlockNumber| #[trigger]
        after.numbers.contains_key(n) implies after.blocks.contains_key(after.numbers[n]) by {
        if n != number {
            assert(before.numbers.contains_key(n));
            assert(before.blocks.dom().contains(before.numbers[n]));
        }
    }
}

/// An operation that leaves the head, the blocks and the numbers as they were
/// (submitting or watching an extrinsic, subscribing to storage) keeps the
/// chain well linked.
pub proof fn law_pool_operations_keep_links(before: ChainView, after: ChainView)
    requires
        well_linked(before),
        after.head == before.head,
        after.blocks == before.blocks,
        after.numbers == before.numbers,
    ensures
        well_linked(after),
{
}

/// A produced block becomes the head: the chain answers with it when no block
/// is named, under its number and under its hash; the pool is empty; and the
/// state now is the state stored with the block.
pub proof fn law_import_makes_head(
    before: ChainView,
    after: ChainView,
    number: BlockNumber,
    block: BlockView,
    invalid: Seq<Hash32>,
    included: Seq<Hash32>,
)
    requires
        imported(before, after, number, block, invalid, included),
    ensures
        ({
            let hash = header_hash_of(block.header);
            &&& head_hash(after) == hash
            &&& header_at(after, None) == Some(block.header)
            &&& header_at(after, Some(hash)) == Some(block.header)
            &&& block_at(after, None) == Some(block)
            &&& block_at(after, Some(NumberOrHex::Number(number))) == Some(block)
            &&& block_at(after, Some(NumberOrHex::Hex(hash))) == Some(block)
            &&& block_hash_at(after, None) == Some(hash)
            &&& block_hash_at(after, Some(NumberOrHex::Number(number))) == Some(hash)
            &&& after.pool.len() == 0
            &&& forall|key: Seq<char>|
                #[trigger] storage_at(after, key, Some(hash)) == storage_at(after, key, None)
        }),
{
    let hash = header_hash_of(block.header);
    assert(after.blocks.contains_key(hash));
    assert forall|key: Seq<char>| #[trigger]
        storage_at(after, key, Some(hash)) == storage_at(after, key, None) by {
        let k = crate::hex_text::key_bytes(key);
        assert(same_state(after.blocks[hash].backend, after.state));
        assert(read_value(after.blocks[hash].backend, k) == read_value(after.state, k));
    }
}

/// Producing a block keeps every earlier block with its header and state,
/// unless it had the new block's hash.
pub proof fn law_import_keeps_blocks(
    before: ChainView,
    after: ChainView,
    number: BlockNumber,
    block: BlockView,
    invalid: Seq<Hash32>,
    included: Seq<Hash32>,
    other: Hash32,
)
    requires
        imported(before, after, number, block, invalid, included),
        before.blocks.contains_key(other),
        other != header_hash_of(block.header),
    ensures
        header_at(after, Some(other)) == header_at(before, Some(other)),
        block_at(after, Some(NumberOrHex::Hex(other))) == block_at(
            before,
            Some(NumberOrHex::Hex(other)),
        ),
        forall|key: Seq<char>| #[trigger]
            storage_at(after, key, Some(other)) == storage_at(before, key, Some(other)),
{
    assert(after.blocks[other] == before.blocks[other]);
}

/// After a block, a refused extrinsic is reported `Invalid` and one that the
/// block holds is reported `InBlock` with the block's hash and its (last)
/// position in the block; the status of any other extrinsic is unchanged.
pub proof fn law_import_reports_statuses(
    before: ChainView,
    after: ChainView,
    number: BlockNumber,
    block: BlockView,
    invalid: Seq<Hash32>,
    included: Seq<Hash32>,
    xt: Hash32,
)
    requires
        imported(before, after, number, block, invalid, included),
    ensures
        ({
            let hash = header_hash_of(block.header);
            &&& forall|i: int|
                0 <= i < included.len() && included[i] == xt && (forall|j: int|
                    i < j < included.len() ==> included[j] != xt) ==> after.statuses.contains_key(
                    xt,
                ) && after.statuses[xt] == TransactionStatusView::<Hash32, Hash32>::InBlock(
                    (hash, i as usize),
                )
            &&& invalid.contains(xt) && !included.contains(xt) ==> after.statuses.contains_key(xt)
                && after.statuses[xt] == TransactionStatusView::<Hash32, Hash32>::Invalid
            &&& !invalid.contains(xt) && !included.contains(xt) ==> after.statuses.contains_key(xt)
                == before.statuses.contains_key(xt) && (before.statuses.contains_key(xt)
                ==> after.statuses[xt] == before.statuses[xt])
        }),
{
    let hash = header_hash_of(block.header);
    let updates = block_status_updates(invalid, included, hash);
    let n = invalid.len();
    lemma_apply_status_updates(before.statuses, updates, xt);
    lemma_last_update_for(updates, xt);
    assert forall|i: int|
        0 <= i < included.len() && included[i] == xt && (forall|j: int|
            i < j < included.len() ==> included[j] != xt) implies after.statuses.contains_key(xt)
        && after.statuses[xt] == TransactionStatusView::<Hash32, Hash32>::InBlock(
        (hash, i as usize),
    ) by {
        assert(updates[n + i].0 == xt);
        match last_update_for(updates, xt) {
            Some(l) => {
                if l > n + i {
                    assert(included[l - n] == xt);
                }
                if l < n + i {
                    assert(updates[n + i].0 == xt);
                }
            },
            None => {
                assert(updates[n + i].0 == xt);
            },
        }
    }
    if invalid.contains(xt) && !included.contains(xt) {
        let k = choose|k: int| 0 <= k < invalid.len() && invalid[k] == xt;
        assert(updates[k].0 == xt);
        match last_update_for(updates, xt) {
            Some(l) => {
                if l >= n {
                    assert(included[l - n] == xt);
                }
            },
            None => {},
        }
    }
    if !invalid.contains(xt) && !included.contains(xt) {
        match last_update_for(updates, xt) {
            Some(l) => {
                if l >= n {
                    assert(included[l - n] == xt);
                } else {
                    assert(invalid[l] == xt);
                }
            },
            None => {},
        }
    }
}

/// A watched extrinsic is reported `Ready` until a block holds it; then it is
/// reported `InBlock` with that block's hash and its position, which is not
/// `Ready`, so the watch ends.
pub proof fn law_watch_until_included(
    start: ChainView,
    watched: ChainView,
    after: ChainView,
    xt: Seq<char>,
    number: BlockNumber,
    block: BlockView,
    invalid: Seq<Hash32>,
    included: Seq<Hash32>,
    position: int,
)
    requires
        watched == (ChainView {
            pool: start.pool.push(xt),
            statuses: start.statuses.insert(extrinsic_hash(xt), TransactionStatusView::Ready),
            ..start
        }),
        imported(watched, after, number, block, invalid, included),
        0 <= position < included.len(),
        included[position] == extrinsic_hash(xt),
        forall|j: int| position < j < included.len() ==> included[j] != extrinsic_hash(xt),
    ensures
        watched.statuses[extrinsic_hash(xt)] is Ready,
        after.statuses.contains_key(extrinsic_hash(xt)),
        after.statuses[extrinsic_hash(xt)] == TransactionStatusView::<Hash32, Hash32>::InBlock(
            (header_hash_of(block.header), position as usize),
        ),
        !(after.statuses[extrinsic_hash(xt)] is Ready),
        position < block.extrinsics.len(),
{
    law_import_reports_statuses(
        watched,
        after,
        number,
        block,
        invalid,
        included,
        extrinsic_hash(xt),
    );
}

/// A storage query over several keys at a block gives, for each key, what a
/// single storage query for that key at that block gives.
pub proof fn law_query_agrees_with_storage(
    chain: ChainView,
    keys: Seq<Seq<char>>,
    at: Option<Hash32>,
    sets: Seq<(Hash32, Seq<(Seq<char>, Option<Seq<char>>)>)>,
    i: int,
)
    requires
        state_at(chain, at) is Some,
        sets.len() == keys.len(),
        forall|j: int|
            0 <= j < keys.len() ==> #[trigger] sets[j] == (
                target_hash(chain, at),
                seq![(keys[j], storage_at(chain, keys[j], at))],
            ),
        0 <= i < keys.len(),
    ensures
        sets[i].1.len() == 1,
        sets[i].1[0] == (keys[i], storage_at(chain, keys[i], at)),
{
    assert(sets[i] == (target_hash(chain, at), seq![(keys[i], storage_at(chain, keys[i], at))]));
}

/// Subscribing to storage keys adds each key once: the subscribed keys stay
/// free of repeats, keep the earlier ones, and hold every new one.
pub proof fn law_subscriptions_without_repeats(keys: Seq<Seq<char>>, new: Seq<Seq<char>>)
    requires
        keys.no_duplicates(),
    ensures
        with_keys(keys, new).no_duplicates(),
        forall|k: Seq<char>| #[trigger] keys.contains(k) ==> with_keys(keys, new).contains(k),
        forall|k: Seq<char>| #[trigger] new.contains(k) ==> with_keys(keys, new).contains(k),
    decreases new.len(),
{
    if new.len() > 0 {
        let rest = new.drop_last();
        law_subscriptions_without_repeats(keys, rest);
        let so_far = with_keys(keys, rest);
        let k = new.last();
        assert forall|x: Seq<char>| #[trigger] new.contains(x) implies with_keys(
            keys,
            new,
        ).contains(x) by {
            let j = choose|j: int| 0 <= j < new.len() && new[j] == x;
            if j < new.len() - 1 {
                assert(rest[j] == x);
                assert(rest.contains(x));
                assert(so_far.contains(x));
                if !so_far.contains(k) {
                    assert(so_far.push(k)[so_far.index_of(x)] == x);
                }
            } else {
                if !so_far.contains(k) {
                    assert(so_far.push(k)[so_far.len() as int] == k);
                }
            }
        }
        assert forall|x: Seq<char>| #[trigger] keys.contains(x) implies with_keys(
            keys,
            new,
        ).contains(x) by {
            assert(keys.contains(x) ==> with_keys(keys, rest).contains(x));
            assert(so_far.contains(x));
            if !so_far.contains(k) {
                assert(so_far.push(k)[so_far.index_of(x)] == x);
            }
        }
    }
}

/// Every pending extrinsic is either taken into the block or refused.
pub proof fn law_pending_split<X>(xts: Seq<Seq<char>>, decoded: Seq<Option<X>>)
    requires
        xts.len() == decoded.len(),
    ensures
        decoded_entries(xts, decoded).len() + refused_hashes(xts, decoded).len() == xts.len(),
    decreases decoded.len(),
{
    if decoded.len() > 0 {
        law_pending_split(xts.drop_last(), decoded.drop_last());
    }
}

/// Every block that the chain holds is stored under its own hash.
pub open spec fn stored_under_own_hash(chain: ChainView) -> bool {
    forall|h: Hash32| #[trigger]
        chain.blocks.contains_key(h) ==> header_hash_of(chain.blocks[h].block.header) == h
}

/// A node that has just started holds its genesis block under the block's
/// own hash.
pub proof fn law_genesis_stored_under_own_hash(chain: ChainView, block: BlockView)
    requires
        is_genesis(chain, block),
    ensures
        stored_under_own_hash(chain),
{
}

/// Producing a block keeps every block stored under its own hash.
pub proof fn law_import_keeps_own_hashes(
    before: ChainView,
    after: ChainView,
    number: BlockNumber,
    block: BlockView,
    invalid: Seq<Hash32>,
    included: Seq<Hash32>,
)
    requires
        stored_under_own_hash(before),
        imported(before, after, number, block, invalid, included),
    ensures
        stored_under_own_hash(after),
{
    let hash = header_hash_of(block.header);
    assert forall|h: Hash32| #[trigger]
        after.blocks.contains_key(h) implies header_hash_of(after.blocks[h].block.header) == h by {
        if h != hash {
            assert(before.blocks.dom().contains(h));
        }
    }
}

/// On a well-linked chain whose blocks are stored under their own hashes, the
/// hash of a block asked for without naming one is the head's hash; a block
/// number the chain knows gives the hash stored under it; and a block named by
/// the hash of a block the chain holds gives that hash back.
pub proof fn law_block_hash_answers(chain: ChainView, h: Hash32, n: BlockNumber)
    requires
        well_linked(chain),
        stored_under_own_hash(chain),
    ensures
        block_hash_at(chain, None) == Some(head_hash(chain)),
        chain.numbers.contains_key(n) ==> block_hash_at(chain, Some(NumberOrHex::Number(n)))
            == Some(chain.numbers[n]),
        chain.blocks.contains_key(h) ==> block_hash_at(chain, Some(NumberOrHex::Hex(h))) == Some(
            h,
        ),
{
    assert(chain.blocks.contains_key(head_hash(chain)));
    if chain.numbers.contains_key(n) {
        assert(chain.blocks.contains_key(chain.numbers[n]));
    }
}

/// The time the node records never goes back while the clock goes forward:
/// of two readings, the first before the epoch or both after it with the
/// first no later, the first gives no more milliseconds. A reading before the
/// epoch gives zero.
pub proof fn law_epoch_millis_monotone(first: Option<u128>, second: Option<u128>)
    requires
        first is None || (first matches Some(x) && second matches Some(y) && x <= y),
    ensures
        epoch_millis(first) <= epoch_millis(second),
        first is None ==> epoch_millis(first) == 0,
{
}

/// The statuses that a watcher of the extrinsic with hash `k` sends while it
/// finds the chain as `polls`, one poll after another, as long as its client
/// listens: each poll's status, until one that is not `Ready` (sent as the
/// last) or a poll without a status (nothing more is sent).
pub open spec fn watch_trace(polls: Seq<ChainView>, k: Hash32) -> Seq<ExtrinsicStatusView>
    decreases polls.len(),
{
    if polls.len() == 0 {
        Seq::empty()
    } else {
        match watch_step_at(polls[0], k) {
            Some((status, last)) => if last {
                seq![status]
            } else {
                seq![status] + watch_trace(polls.drop_first(), k)
            },
            None => Seq::empty(),
        }
    }
}

/// A watcher sends the status that the node holds at each poll, `Ready` every
/// time but perhaps the last, and never more items than it polled.
pub proof fn law_watch_sends_ready_then_last(polls: Seq<ChainView>, k: Hash32)
    ensures
        watch_trace(polls, k).len() <= polls.len(),
        forall|i: int|
            0 <= i < watch_trace(polls, k).len() ==> (#[trigger] polls[i]).statuses.contains_key(k),
        forall|i: int|
            0 <= i < watch_trace(polls, k).len() ==> #[trigger] watch_trace(polls, k)[i]
                == polls[i].statuses[k],
        forall|i: int|
            0 <= i < watch_trace(polls, k).len() - 1 ==> #[trigger] watch_trace(polls, k)[i] is Ready,
    decreases polls.len(),
{
    if polls.len() > 0 {
        let rest = polls.drop_first();
        law_watch_sends_ready_then_last(rest, k);
        let t = watch_trace(polls, k);
        if polls[0].statuses.contains_key(k) && polls[0].statuses[k] is Ready {
            assert(t == seq![polls[0].statuses[k]] + watch_trace(rest, k));
        }
        assert forall|i: int| #![trigger t[i]] #![trigger polls[i]] 0 <= i < t.len() implies (
        polls[i].statuses.contains_key(k) && t[i] == polls[i].statuses[k]) by {
            if i > 0 {
                assert(rest[i - 1] == polls[i]);
                assert(t[i] == watch_trace(rest, k)[i - 1]);
            }
        }
        assert forall|i: int| #![trigger t[i]] 0 <= i < t.len() - 1 implies t[i] is Ready by {
            if i > 0 {
                assert(t[i] == watch_trace(rest, k)[i - 1]);
            }
        }
    }
}

/// A watched extrinsic that stays `Ready` through the first `j` polls and has
/// a final status at poll `j` (such as `InBlock` once a block holds it) is
/// sent that status at poll `j`, and the watch ends there.
pub proof fn law_watch_ends_with_final_status(polls: Seq<ChainView>, k: Hash32, j: int)
    requires
        0 <= j < polls.len(),
        forall|i: int|
            0 <= i < j ==> (#[trigger] polls[i]).statuses.contains_key(k)
                && polls[i].statuses[k] is Ready,
        polls[j].statuses.contains_key(k),
        !(polls[j].statuses[k] is Ready),
    ensures
        watch_trace(polls, k).len() == j + 1,
        watch_trace(polls, k)[j] == polls[j].statuses[k],
    decreases j,
{
    if j > 0 {
        let rest = polls.drop_first();
        assert(polls[0].statuses.contains_key(k));
        assert forall|i: int| 0 <= i < j - 1 implies (#[trigger] rest[i]).statuses.contains_key(k)
            && rest[i].statuses[k] is Ready by {
            assert(rest[i] == polls[i + 1]);
        }
        law_watch_ends_with_final_status(rest, k, j - 1);
        assert(watch_trace(polls, k) == seq![polls[0].statuses[k]] + watch_trace(rest, k));
    }
}

/// A block leaves the node with the header it was stored with, unchanged,
/// and with each of its extrinsics, in order, as `0x` and the hex of its
/// bytes.
pub proof fn law_wire_block_keeps_header(block: BlockView)
    ensures
        mock_block_view(block).header == block.header,
        mock_block_view(block).extrinsics.len() == block.extrinsics.len(),
        forall|j: int|
            0 <= j < block.extrinsics.len() ==> #[trigger] mock_block_view(block).extrinsics[j]
                == seq!['0', 'x'] + crate::hex_text::hex_text(block.extrinsics[j]),
{
}

/// A storage read at a block the node has (or now) answers with what the
/// trie lookup of the key's bytes finds there, as `0x` and hex, whatever the
/// key's length; it answers nothing when the lookup finds nothing or the block
/// is unknown.
pub proof fn law_storage_reads_what_the_trie_finds(
    chain: ChainView,
    key: Seq<char>,
    at: Option<Hash32>,
)
    ensures
        state_at(chain, at) matches Some(s) ==> (read_value(s, key_bytes(key)) matches Some(v)
            ==> storage_at(chain, key, at) == Some(prefixed_hex_text(v))),
        state_at(chain, at) matches Some(s) ==> (read_value(s, key_bytes(key)) is None
            ==> storage_at(chain, key, at) is None),
        state_at(chain, at) is None ==> storage_at(chain, key, at) is None,
        at is None ==> state_at(chain, at) == Some(chain.state),
{
}

/// The change set that starts a storage subscription holds every key, in
/// order, each with what the trie lookup of its bytes finds in the state, as
/// `0x` and hex, or nothing when it finds nothing.
pub proof fn law_initial_changes_read_every_key(state: StateSnapshot, keys: Seq<Seq<char>>)
    ensures
        key_changes(state, keys).len() == keys.len(),
        forall|i: int|
            #![trigger key_changes(state, keys)[i]]
            0 <= i < keys.len() ==> key_changes(state, keys)[i].0 == keys[i] && match read_value(
                state,
                key_bytes(keys[i]),
            ) {
                Some(v) => key_changes(state, keys)[i].1 == Some(prefixed_hex_text(v)),
                None => key_changes(state, keys)[i].1 is None,
            },
{
}

/// A hash that names no block the chain holds gives no header, no block and
/// no block hash; one that does gives that block's header and the block.
pub proof fn law_unknown_hash_gives_nothing(chain: ChainView, h: Hash32)
    ensures
        !chain.blocks.contains_key(h) ==> header_at(chain, Some(h)) is None,
        !chain.blocks.contains_key(h) ==> block_at(chain, Some(NumberOrHex::Hex(h))) is None,
        !chain.blocks.contains_key(h) ==> block_hash_at(chain, Some(NumberOrHex::Hex(h))) is None,
        chain.blocks.contains_key(h) ==> header_at(chain, Some(h)) == Some(
            chain.blocks[h].block.header,
        ),
        chain.blocks.contains_key(h) ==> block_at(chain, Some(NumberOrHex::Hex(h))) == Some(
            chain.blocks[h].block,
        ),
{
}

} // verus!
