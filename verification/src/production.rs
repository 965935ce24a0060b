//! The decisions of block production: which pending extrinsics go into the
//! next block, who signed them, what the genesis holds, and the time.
use vstd::prelude::*;
use std::time::{Duration, SystemTime, SystemTimeError, UNIX_EPOCH};

use crate::block::{build_block, genesis_header, genesis_header_view, Block, BlockView};
use crate::chain::extrinsic_hash;
use crate::hashing::{blake2_256, Hash32};
use crate::rpc_types::texts_view;

verus! {

/// The extrinsics of the pool that decoded, each with its hash, in pool order.
pub open spec fn decoded_entries<X>(xts: Seq<Seq<char>>, decoded: Seq<Option<X>>) -> Seq<
    (Hash32, X),
>
    decreases decoded.len(),
{
    if decoded.len() == 0 || xts.len() == 0 {
        Seq::empty()
    } else {
        let rest = decoded_entries(xts.drop_last(), decoded.drop_last());
        match decoded.last() {
            Some(x) => rest.push((extrinsic_hash(xts.last()), x)),
            None => rest,
        }
    }
}

/// The hashes of the extrinsics of the pool that did not decode, in pool order.
pub open spec fn refused_hashes<X>(xts: Seq<Seq<char>>, decoded: Seq<Option<X>>) -> Seq<Hash32>
    decreases decoded.len(),
{
    if decoded.len() == 0 || xts.len() == 0 {
        Seq::empty()
    } else {
        let rest = refused_hashes(xts.drop_last(), decoded.drop_last());
        match decoded.last() {
            Some(_) => rest,
            None => rest.push(extrinsic_hash(xts.last())),
        }
    }
}

/// Splits the pending extrinsics into those that decoded (`decoded[i]` is
/// what the `i`-th one decoded to, if anything), each with its hash, and the
/// hashes of those that did not.
pub fn check_pending_extrinsics<X>(extrinsics: Vec<String>, decoded: Vec<Option<X>>) -> (split: (
    Vec<(Hash32, X)>,
    Vec<Hash32>,
))
    requires
        decoded@.len() == extrinsics@.len(),
    ensures
        split.0@ == decoded_entries(texts_view(extrinsics@), decoded@),
        split.1@ == refused_hashes(texts_view(extrinsics@), decoded@),
{
    let ghost xts = texts_view(extrinsics@);
    let ghost all = decoded@;
    let mut decoded = decoded;
    let mut valid: Vec<(Hash32, X)> = Vec::new();
    let mut invalid: Vec<Hash32> = Vec::new();
    let mut i: usize = 0;
    assert(xts.take(0) =~= Seq::<Seq<char>>::empty());
    while i < extrinsics.len()
        invariant
            i <= extrinsics@.len(),
            all.len() == extrinsics@.len(),
            xts == texts_view(extrinsics@),
            decoded@ == all.skip(i as int),
            valid@ == decoded_entries(xts.take(i as int), all.take(i as int)),
            invalid@ == refused_hashes(xts.take(i as int), all.take(i as int)),
        decreases extrinsics@.len() - i,
    {
        let hash = blake2_256(extrinsics[i].as_str().as_bytes());
        let d = decoded.remove(0);
        proof {
            assert(xts.take(i + 1).drop_last() =~= xts.take(i as int));
            assert(all.take(i + 1).drop_last() =~= all.take(i as int));
            assert(xts.take(i + 1).last() == extrinsics@[i as int]@);
            assert(all.take(i + 1).last() == d);
            assert(decoded@ =~= all.skip(i + 1));
        }
        match d {
            Some(x) => valid.push((hash, x)),
            None => invalid.push(hash),
        }
        i = i + 1;
    }
    assert(xts.take(i as int) =~= xts);
    assert(all.take(i as int) =~= all);
    (valid, invalid)
}

/// The genesis block: the genesis header and no extrinsics.
pub fn genesis_block() -> (block: Block)
    ensures
        block@ == (BlockView { header: genesis_header_view(), extrinsics: Seq::empty() }),
{
    let block = build_block(genesis_header(), Vec::new());
    assert(block@.extrinsics =~= Seq::<Seq<u8>>::empty());
    block
}

/// The address that signed an extrinsic.
pub enum SignerAddress<A> {
    /// An account id.
    Id(A),
    /// A raw 32-byte account.
    Address32(Hash32),
    /// Any other kind of address.
    Other,
}

/// The account that an extrinsic is dispatched as.
pub enum Signer<A> {
    /// The account named by id.
    Account(A),
    /// The account made of these 32 bytes.
    Raw(Hash32),
    /// The development account that stands in for other addresses.
    Fallback,
}

/// Who a signed extrinsic is dispatched as; nothing for an unsigned one.
pub fn signer_of<A>(address: Option<SignerAddress<A>>) -> (signer: Option<Signer<A>>)
    ensures
        match address {
            Some(SignerAddress::Id(a)) => signer == Some(Signer::Account(a)),
            Some(SignerAddress::Address32(a)) => signer == Some(Signer::<A>::Raw(a)),
            Some(SignerAddress::Other) => signer == Some(Signer::<A>::Fallback),
            None => signer is None,
        },
{
    match address {
        Some(address) => Some(
            match address {
                SignerAddress::Id(a) => Signer::Account(a),
                SignerAddress::Address32(a) => Signer::Raw(a),
                SignerAddress::Other => Signer::Fallback,
            },
        ),
        None => None,
    }
}

/// The balance that each endowed account starts with.
pub const ENDOWMENT: u128 = 1_000_000_000_000_000;

/// The genesis balances: each endowed account (the given ones, or else the
/// defaults) with the same endowment.
pub fn genesis_balances<A>(endowed: Option<Vec<A>>, defaults: Vec<A>) -> (balances: Vec<(A, u128)>)
    ensures
        ({
            let accounts = match endowed {
                Some(a) => a@,
                None => defaults@,
            };
            &&& balances@.len() == accounts.len()
            &&& forall|i: int|
                0 <= i < accounts.len() ==> #[trigger] balances@[i] == (accounts[i], ENDOWMENT)
        }),
{
    let mut accounts = match endowed {
        Some(a) => a,
        None => defaults,
    };
    let ghost all = accounts@;
    let mut balances: Vec<(A, u128)> = Vec::new();
    while accounts.len() > 0
        invariant
            balances@.len() + accounts@.len() == all.len(),
            accounts@ == all.skip(balances@.len() as int),
            forall|i: int| 0 <= i < balances@.len() ==> #[trigger] balances@[i] == (all[i], ENDOWMENT),
        decreases accounts@.len(),
    {
        let ghost k = balances@.len() as int;
        let a = accounts.remove(0);
        assert(a == all[k]);
        balances.push((a, ENDOWMENT));
        assert(accounts@ =~= all.skip(k + 1));
    }
    balances
}

/// A count of milliseconds, cut off at the largest `u64`.
pub fn saturate_millis(millis: u128) -> (m: u64)
    ensures
        m == (if millis > u64::MAX {
            u64::MAX as u128
        } else {
            millis
        }),
{
    if millis > u64::MAX as u128 {
        u64::MAX
    } else {
        millis as u64
    }
}

#[verifier::external_type_specification]
#[verifier::external_body]
pub struct ExSystemTime(SystemTime);

#[verifier::external_type_specification]
#[verifier::external_body]
pub struct ExSystemTimeError(SystemTimeError);

/// `SystemTime::now`: the time of the machine; nothing is claimed of it.
#[verifier::external_body]
fn system_now() -> SystemTime {
    SystemTime::now()
}

/// `SystemTime::duration_since(UNIX_EPOCH)`: the time since the epoch, or an
/// error for a time before it; nothing is claimed of it.
#[verifier::external_body]
fn since_unix_epoch(time: &SystemTime) -> Result<Duration, SystemTimeError> {
    time.duration_since(UNIX_EPOCH)
}

/// `Duration::as_millis`: the whole milliseconds of a duration; nothing is
/// claimed of it.
#[verifier::external_body]
fn duration_millis(duration: &Duration) -> u128 {
    duration.as_millis()
}

/// What the node records as the time, from a reading of the clock: the whole
/// milliseconds since the Unix epoch (`None` for a time before it, which
/// counts as zero), cut off at the largest `u64`.
pub open spec fn epoch_millis(elapsed: Option<u128>) -> u64 {
    match elapsed {
        Some(ms) => if ms > u64::MAX {
            u64::MAX
        } else {
            ms as u64
        },
        None => 0,
    }
}

/// The time in milliseconds that a reading of the clock gives: `elapsed` is
/// the whole milliseconds since the Unix epoch, or `None` when the clock
/// reads a time before it.
pub fn millis_since_epoch(elapsed: Option<u128>) -> (m: u64)
    ensures
        m == epoch_millis(elapsed),
{
    match elapsed {
        Some(ms) => saturate_millis(ms),
        None => 0,
    }
}

/// The whole milliseconds from the Unix epoch to now, or `None` when the
/// clock reads a time before the epoch.
fn clock_millis() -> Option<u128> {
    let now = system_now();
    match since_unix_epoch(&now) {
        Ok(elapsed) => Some(duration_millis(&elapsed)),
        Err(_) => None,
    }
}

/// The time now in milliseconds since the Unix epoch: zero for a time before
/// it, the largest `u64` for one beyond it. The clock's reading is not known
/// here; `millis_since_epoch` states what each reading gives.
pub fn current_time() -> u64 {
    millis_since_epoch(clock_millis())
}

} // verus!
