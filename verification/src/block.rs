//! Blocks as the node keeps them: a header and the encoded extrinsics.
use vstd::prelude::*;

use crate::hashing::{filled_hash, header_hash, header_hash_of, Hash32};

verus! {

/// The number of a block; the genesis block is number 0.
pub type BlockNumber = u32;

/// The four-byte id of a consensus engine.
pub type ConsensusEngineId = [u8; 4];

/// One log of a header's digest.
pub enum DigestItem {
    PreRuntime(ConsensusEngineId, Vec<u8>),
    Consensus(ConsensusEngineId, Vec<u8>),
    Seal(ConsensusEngineId, Vec<u8>),
    Other(Vec<u8>),
    RuntimeEnvironmentUpdated,
}

/// A digest log with its bytes as a sequence.
pub enum DigestItemView {
    PreRuntime(ConsensusEngineId, Seq<u8>),
    Consensus(ConsensusEngineId, Seq<u8>),
    Seal(ConsensusEngineId, Seq<u8>),
    Other(Seq<u8>),
    RuntimeEnvironmentUpdated,
}

impl View for DigestItem {
    type V = DigestItemView;

    open spec fn view(&self) -> DigestItemView {
        match self {
            DigestItem::PreRuntime(id, v) => DigestItemView::PreRuntime(*id, v@),
            DigestItem::Consensus(id, v) => DigestItemView::Consensus(*id, v@),
            DigestItem::Seal(id, v) => DigestItemView::Seal(*id, v@),
            DigestItem::Other(v) => DigestItemView::Other(v@),
            DigestItem::RuntimeEnvironmentUpdated => DigestItemView::RuntimeEnvironmentUpdated,
        }
    }
}

impl Clone for DigestItem {
    fn clone(&self) -> (copy: Self)
        ensures
            copy@ == self@,
    {
        match self {
            DigestItem::PreRuntime(id, v) => DigestItem::PreRuntime(*id, v.clone()),
            DigestItem::Consensus(id, v) => DigestItem::Consensus(*id, v.clone()),
            DigestItem::Seal(id, v) => DigestItem::Seal(*id, v.clone()),
            DigestItem::Other(v) => DigestItem::Other(v.clone()),
            DigestItem::RuntimeEnvironmentUpdated => DigestItem::RuntimeEnvironmentUpdated,
        }
    }
}

/// A block header.
pub struct Header {
    pub parent_hash: Hash32,
    pub number: BlockNumber,
    pub state_root: Hash32,
    pub extrinsics_root: Hash32,
    pub digest: Vec<DigestItem>,
}

/// A header with its digest as a sequence of logs.
pub struct HeaderView {
    pub parent_hash: Hash32,
    pub number: BlockNumber,
    pub state_root: Hash32,
    pub extrinsics_root: Hash32,
    pub digest: Seq<DigestItemView>,
}

/// The views of a list of digest logs.
pub open spec fn digest_view(logs: Seq<DigestItem>) -> Seq<DigestItemView> {
    logs.map_values(|d: DigestItem| d@)
}

impl View for Header {
    type V = HeaderView;

    open spec fn view(&self) -> HeaderView {
        HeaderView {
            parent_hash: self.parent_hash,
            number: self.number,
            state_root: self.state_root,
            extrinsics_root: self.extrinsics_root,
            digest: digest_view(self.digest@),
        }
    }
}

impl Clone for Header {
    fn clone(&self) -> (copy: Self)
        ensures
            copy@ == self@,
    {
        let mut digest: Vec<DigestItem> = Vec::new();
        let mut i: usize = 0;
        while i < self.digest.len()
            invariant
                i <= self.digest.len(),
                digest@.len() == i,
                forall|j: int| 0 <= j < i ==> #[trigger] digest@[j]@ == self.digest@[j]@,
            decreases self.digest.len() - i,
        {
            digest.push(self.digest[i].clone());
            i = i + 1;
        }
        assert(digest_view(digest@) =~= digest_view(self.digest@));
        Header {
            parent_hash: self.parent_hash,
            number: self.number,
            state_root: self.state_root,
            extrinsics_root: self.extrinsics_root,
            digest,
        }
    }
}

/// A block: its header and its extrinsics, each in its encoded form.
pub struct Block {
    pub header: Header,
    pub extrinsics: Vec<Vec<u8>>,
}

/// A block with its extrinsics as sequences of bytes.
pub struct BlockView {
    pub header: HeaderView,
    pub extrinsics: Seq<Seq<u8>>,
}

/// The views of a list of byte strings.
pub open spec fn bytes_view(items: Seq<Vec<u8>>) -> Seq<Seq<u8>> {
    items.map_values(|b: Vec<u8>| b@)
}

impl View for Block {
    type V = BlockView;

    open spec fn view(&self) -> BlockView {
        BlockView { header: self.header@, extrinsics: bytes_view(self.extrinsics@) }
    }
}

/// A copy of a list of byte strings.
pub fn clone_bytes_list(items: &Vec<Vec<u8>>) -> (copy: Vec<Vec<u8>>)
    ensures
        bytes_view(copy@) == bytes_view(items@),
{
    let mut copy: Vec<Vec<u8>> = Vec::new();
    let mut i: usize = 0;
    while i < items.len()
        invariant
            i <= items.len(),
            copy@.len() == i,
            forall|j: int| 0 <= j < i ==> #[trigger] copy@[j]@ == items@[j]@,
        decreases items.len() - i,
    {
        copy.push(items[i].clone());
        i = i + 1;
    }
    assert(bytes_view(copy@) =~= bytes_view(items@));
    copy
}

impl Clone for Block {
    fn clone(&self) -> (copy: Self)
        ensures
            copy@ == self@,
    {
        Block { header: self.header.clone(), extrinsics: clone_bytes_list(&self.extrinsics) }
    }
}

impl Block {
    /// The block's hash: the hash of its header.
    pub fn hash(&self) -> (hash: Hash32)
        ensures
            hash == header_hash_of(self.header@),
    {
        header_hash(&self.header)
    }
}

/// A block made of a header and the extrinsics that it holds.
pub fn build_block(header: Header, extrinsics: Vec<Vec<u8>>) -> (block: Block)
    ensures
        block@ == (BlockView { header: header@, extrinsics: bytes_view(extrinsics@) }),
{
    Block { header, extrinsics }
}

/// The header of the genesis block: number 0, a zero parent hash, state and
/// extrinsics roots of all ones, and no digest logs.
pub fn genesis_header() -> (header: Header)
    ensures
        header@ == genesis_header_view(),
{
    let header = Header {
        parent_hash: [0u8; 32],
        number: 0,
        state_root: [1u8; 32],
        extrinsics_root: [1u8; 32],
        digest: Vec::new(),
    };
    proof {
        broadcast use vstd::array::group_array_axioms;
        assert(digest_view(header.digest@) =~= Seq::<DigestItemView>::empty());
    }
    header
}

/// The genesis header's fields.
pub open spec fn genesis_header_view() -> HeaderView {
    HeaderView {
        parent_hash: filled_hash(0),
        number: 0,
        state_root: filled_hash(1),
        extrinsics_root: filled_hash(1),
        digest: Seq::empty(),
    }
}

} // verus!
