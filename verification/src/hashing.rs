//! Hashes: Blake2-256 of bytes, and the hash of a block header as the
//! runtime computes it.
use vstd::prelude::*;
use sp_core::Hasher;
use sp_runtime::generic::{Digest, Header as RuntimeHeader};
use sp_runtime::traits::{BlakeTwo256, Header as HeaderT};
use sp_runtime::DigestItem as RuntimeDigestItem;

use crate::block::{DigestItem, Header, HeaderView};

verus! {

/// A 256-bit hash: of an extrinsic, or of a block header.
pub type Hash32 = [u8; 32];

/// The hash whose 32 bytes all equal `b`.
pub open spec fn filled_hash(b: u8) -> Hash32 {
    vstd::array::spec_array_fill_for_copy_type::<u8, 32>(b)
}

/// What Blake2-256 gives for `data`.
pub uninterp spec fn blake2_256_of(data: Seq<u8>) -> Hash32;

/// What the runtime's block hash (Blake2-256 of the SCALE-encoded header)
/// gives for a header.
pub uninterp spec fn header_hash_of(header: HeaderView) -> Hash32;

/// `sp_core::Blake2Hasher::hash`: Blake2-256 of the bytes; a function of the
/// bytes alone.
#[verifier::external_body]
pub(crate) fn blake2_256(data: &[u8]) -> (hash: Hash32)
    ensures
        hash == blake2_256_of(data@),
{
    sp_core::Blake2Hasher::hash(data).0
}

/// `sp_runtime::generic::Header::<u32, BlakeTwo256>::hash` of the header with
/// these fields and digest logs; a function of the header alone.
#[verifier::external_body]
pub(crate) fn header_hash(header: &Header) -> (hash: Hash32)
    ensures
        hash == header_hash_of(header@),
{
    let logs = header.digest.iter().map(|d| match d {
        DigestItem::PreRuntime(id, v) => RuntimeDigestItem::PreRuntime(*id, v.clone()),
        DigestItem::Consensus(id, v) => RuntimeDigestItem::Consensus(*id, v.clone()),
        DigestItem::Seal(id, v) => RuntimeDigestItem::Seal(*id, v.clone()),
        DigestItem::Other(v) => RuntimeDigestItem::Other(v.clone()),
        DigestItem::RuntimeEnvironmentUpdated => RuntimeDigestItem::RuntimeEnvironmentUpdated,
    }).collect();
    let (e, s, p) = (header.extrinsics_root.into(), header.state_root.into(), header.parent_hash.into());
    RuntimeHeader::<u32, BlakeTwo256>::new(header.number, e, s, p, Digest { logs }).hash().0
}

/// Whether two hashes are the same.
pub fn hash_eq(a: &Hash32, b: &Hash32) -> (same: bool)
    ensures
        same == (*a == *b),
{
    broadcast use vstd::array::group_array_axioms;
    let mut i: usize = 0;
    while i < 32
        invariant
            0 <= i <= 32,
            forall|j: int| 0 <= j < i ==> a[j] == b[j],
        decreases 32 - i,
    {
        if a[i] != b[i] {
            return false;
        }
        i = i + 1;
    }
    assert(*a =~= *b);
    true
}

} // verus!
