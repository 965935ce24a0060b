//! The values that the node's RPC methods take and give.
use vstd::prelude::*;

use crate::block::{Block, BlockView, BlockNumber, ConsensusEngineId, Header, HeaderView};
use crate::hashing::Hash32;
use crate::hex_text::{prefixed_hex, prefixed_hex_text};

verus! {

/// Texts as sequences of characters.
pub open spec fn texts_view(texts: Seq<String>) -> Seq<Seq<char>> {
    texts.map_values(|t: String| t@)
}

/// A block whose extrinsics are given as `0x`-prefixed hex.
pub struct MockBlock {
    pub header: Header,
    pub extrinsics: Vec<String>,
}

/// A block for the wire, with its extrinsics as text.
pub struct MockBlockView {
    pub header: HeaderView,
    pub extrinsics: Seq<Seq<char>>,
}

impl View for MockBlock {
    type V = MockBlockView;

    open spec fn view(&self) -> MockBlockView {
        MockBlockView { header: self.header@, extrinsics: texts_view(self.extrinsics@) }
    }
}

/// A block for the wire: the same header, each extrinsic as `0x` and hex.
pub open spec fn mock_block_view(block: BlockView) -> MockBlockView {
    MockBlockView {
        header: block.header,
        extrinsics: block.extrinsics.map_values(|x: Seq<u8>| prefixed_hex_text(x)),
    }
}

impl MockBlock {
    /// The block with each encoded extrinsic written as `0x` and hex.
    fn new(block: Block) -> (mock: Self)
        ensures
            mock@ == mock_block_view(block@),
            mock.header@ == block.header@,
            mock.extrinsics@.len() == block.extrinsics@.len(),
            forall|j: int|
                0 <= j < block.extrinsics@.len() ==> #[trigger] mock.extrinsics@[j]@
                    == prefixed_hex_text(block.extrinsics@[j]@),
    {
        let Block { header, extrinsics } = block;
        let mut texts: Vec<String> = Vec::new();
        let mut i: usize = 0;
        while i < extrinsics.len()
            invariant
                i <= extrinsics@.len(),
                texts@.len() == i,
                forall|j: int|
                    0 <= j < i ==> #[trigger] texts@[j]@ == prefixed_hex_text(extrinsics@[j]@),
            decreases extrinsics@.len() - i,
        {
            texts.push(prefixed_hex(extrinsics[i].as_slice()));
            i = i + 1;
        }
        let mock = MockBlock { header, extrinsics: texts };
        assert(mock@.extrinsics =~= mock_block_view(block@).extrinsics);
        mock
    }
}

/// Justifications of a block: per consensus engine, an encoded justification.
pub struct Justifications(pub Vec<(ConsensusEngineId, Vec<u8>)>);

/// Justifications with their bytes as sequences.
pub open spec fn justifications_view(j: Option<Justifications>) -> Option<
    Seq<(ConsensusEngineId, Seq<u8>)>,
> {
    match j {
        Some(j) => Some(j.0@.map_values(|p: (ConsensusEngineId, Vec<u8>)| (p.0, p.1@))),
        None => None,
    }
}

/// A block with its justifications, as `chain_getBlock` answers.
pub struct MockSignedBlock {
    /// Full block.
    pub block: MockBlock,
    /// Block justification.
    pub justifications: Option<Justifications>,
}

impl MockSignedBlock {
    /// The block for the wire, with the given justifications.
    pub fn new(block: Block, justifications: Option<Justifications>) -> (signed: Self)
        ensures
            signed.block@ == mock_block_view(block@),
            signed.block.header@ == block.header@,
            signed.block.extrinsics@.len() == block.extrinsics@.len(),
            forall|j: int|
                0 <= j < block.extrinsics@.len() ==> #[trigger] signed.block.extrinsics@[j]@
                    == prefixed_hex_text(block.extrinsics@[j]@),
            signed.justifications == justifications,
    {
        MockSignedBlock { block: MockBlock::new(block), justifications }
    }
}

/// A storage change set: the block, and per key its value (if any).
pub struct StorageChangeSet<H> {
    /// Block hash
    pub block: H,
    /// A list of changes
    pub changes: Vec<(String, Option<String>)>,
}

/// A change as text.
pub open spec fn change_view(c: (String, Option<String>)) -> (Seq<char>, Option<Seq<char>>) {
    (
        c.0@,
        match c.1 {
            Some(v) => Some(v@),
            None => None,
        },
    )
}

/// Changes as text.
pub open spec fn changes_view(changes: Seq<(String, Option<String>)>) -> Seq<
    (Seq<char>, Option<Seq<char>>),
> {
    changes.map_values(|c: (String, Option<String>)| change_view(c))
}

/// A block number, or a block hash.
#[derive(Clone, Copy)]
pub enum NumberOrHex {
    /// The number represented directly.
    Number(BlockNumber),
    /// Hex representation of the number.
    Hex(Hash32),
}

impl Default for NumberOrHex {
    fn default() -> (n: Self)
        ensures
            n == NumberOrHex::Number(0),
    {
        NumberOrHex::Number(0)
    }
}

/// The version of the runtime that the node reports.
#[derive(Clone)]
pub struct RuntimeVersion {
    pub spec_name: String,
    pub impl_name: String,
    pub authoring_version: u64,
    pub spec_version: u64,
    pub impl_version: u64,
    pub apis: Vec<([u8; 8], u32)>,
    pub transaction_version: u64,
    pub state_version: u8,
}

/// Available RPC methods.
#[derive(Clone, Copy, PartialEq, Eq, Structural)]
pub enum RpcMethods {
    Auto,
    Safe,
    Unsafe,
}

/// The kind of chain.
#[derive(Clone)]
pub enum ChainType {
    /// A development chain that runs mainly on one node.
    Development,
    /// A local chain that runs locally on multiple nodes for testing purposes.
    Local,
    /// A live chain.
    Live,
    /// Some custom chain type.
    Custom(String),
}

/// The status of an extrinsic that a client watches.
pub enum TransactionStatus<H, B> {
    /// Transaction is part of the future queue.
    Future,
    /// Transaction is part of the ready queue.
    Ready,
    /// The transaction has been broadcast to the given peers.
    Broadcast(Vec<String>),
    /// Transaction has been included in block with given hash
    /// at the given position.
    InBlock((B, usize)),
    /// The block this transaction was included in has been retracted.
    Retracted(B),
    /// Maximum number of finality watchers has been reached,
    /// old watchers are being removed.
    FinalityTimeout(B),
    /// Transaction has been finalized by a finality-gadget, e.g GRANDPA.
    Finalized((B, usize)),
    /// Transaction has been replaced in the pool, by another transaction
    /// that provides the same tags. (e.g. same (sender, nonce)).
    Usurped(H),
    /// Transaction has been dropped from the pool because of the limit.
    Dropped,
    /// Transaction is no longer valid in the current state.
    Invalid,
}

/// A transaction status with its peers as text.
pub enum TransactionStatusView<H, B> {
    Future,
    Ready,
    Broadcast(Seq<Seq<char>>),
    InBlock((B, usize)),
    Retracted(B),
    FinalityTimeout(B),
    Finalized((B, usize)),
    Usurped(H),
    Dropped,
    Invalid,
}

impl<H, B> View for TransactionStatus<H, B> {
    type V = TransactionStatusView<H, B>;

    open spec fn view(&self) -> TransactionStatusView<H, B> {
        match self {
            TransactionStatus::Future => TransactionStatusView::Future,
            TransactionStatus::Ready => TransactionStatusView::Ready,
            TransactionStatus::Broadcast(peers) => TransactionStatusView::Broadcast(
                texts_view(peers@),
            ),
            TransactionStatus::InBlock(at) => TransactionStatusView::InBlock(*at),
            TransactionStatus::Retracted(b) => TransactionStatusView::Retracted(*b),
            TransactionStatus::FinalityTimeout(b) => TransactionStatusView::FinalityTimeout(*b),
            TransactionStatus::Finalized(at) => TransactionStatusView::Finalized(*at),
            TransactionStatus::Usurped(h) => TransactionStatusView::Usurped(*h),
            TransactionStatus::Dropped => TransactionStatusView::Dropped,
            TransactionStatus::Invalid => TransactionStatusView::Invalid,
        }
    }
}

/// A copy of a list of texts.
pub fn clone_texts(texts: &Vec<String>) -> (copy: Vec<String>)
    ensures
        texts_view(copy@) == texts_view(texts@),
{
    let mut copy: Vec<String> = Vec::new();
    let mut i: usize = 0;
    while i < texts.len()
        invariant
            i <= texts@.len(),
            copy@.len() == i,
            forall|j: int| 0 <= j < i ==> #[trigger] copy@[j]@ == texts@[j]@,
        decreases texts@.len() - i,
    {
        copy.push(texts[i].clone());
        i = i + 1;
    }
    assert(texts_view(copy@) =~= texts_view(texts@));
    copy
}

impl<H: Copy, B: Copy> Clone for TransactionStatus<H, B> {
    fn clone(&self) -> (copy: Self)
        ensures
            copy@ == self@,
    {
        match self {
            TransactionStatus::Future => TransactionStatus::Future,
            TransactionStatus::Ready => TransactionStatus::Ready,
            TransactionStatus::Broadcast(peers) => TransactionStatus::Broadcast(clone_texts(peers)),
            TransactionStatus::InBlock(at) => TransactionStatus::InBlock(*at),
            TransactionStatus::Retracted(b) => TransactionStatus::Retracted(*b),
            TransactionStatus::FinalityTimeout(b) => TransactionStatus::FinalityTimeout(*b),
            TransactionStatus::Finalized(at) => TransactionStatus::Finalized(*at),
            TransactionStatus::Usurped(h) => TransactionStatus::Usurped(*h),
            TransactionStatus::Dropped => TransactionStatus::Dropped,
            TransactionStatus::Invalid => TransactionStatus::Invalid,
        }
    }
}

} // verus!
