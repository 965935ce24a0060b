use runstrate::block::{build_block, Header};
use runstrate::chain::{notification_change_set, BlockChainData, WatchStep};
use runstrate::hex_text::prefixed_hex;
use runstrate::production::genesis_block;
use runstrate::rpc_types::{NumberOrHex, TransactionStatus};
use sp_core::Hasher;

fn blake2(data: &[u8]) -> [u8; 32] {
    sp_core::Blake2Hasher::hash(data).0
}

fn genesis_chain() -> BlockChainData {
    BlockChainData::genesis(genesis_block(), vec![(vec![1, 2], vec![3]), (vec![7], vec![8, 9])])
}

fn next_block(parent: [u8; 32], number: u32, extrinsics: Vec<Vec<u8>>) -> runstrate::block::Block {
    build_block(
        Header {
            parent_hash: parent,
            number,
            state_root: [number as u8; 32],
            extrinsics_root: [0xee; 32],
            digest: vec![],
        },
        extrinsics,
    )
}

#[test]
fn genesis_is_head_and_block_zero() {
    let chain = genesis_chain();
    let hash = genesis_block().hash();
    assert_eq!(chain.finalized_head(), hash);
    assert_eq!(chain.block_hash(None), Some(hash));
    assert_eq!(chain.block_hash(Some(NumberOrHex::Number(0))), Some(hash));
    assert_eq!(chain.block_hash(Some(NumberOrHex::Hex(hash))), Some(hash));
    assert_eq!(chain.block_hash(Some(NumberOrHex::Number(1))), None);
    assert_eq!(chain.block_hash(Some(NumberOrHex::Hex([9u8; 32]))), None);
    assert_eq!(chain.header(None).unwrap().number, 0);
    assert_eq!(chain.header(Some(hash)).unwrap().state_root, [1u8; 32]);
    assert!(chain.header(Some([9u8; 32])).is_none());
    let b = chain.block(Some(NumberOrHex::Number(0))).unwrap();
    assert!(b.block.extrinsics.is_empty());
    assert!(b.justifications.is_none());
    assert!(chain.block(Some(NumberOrHex::Number(5))).is_none());
    assert_eq!(chain.head_header().number, 0);
}

#[test]
fn storage_reads_state_at_block_or_now() {
    let chain = genesis_chain();
    let hash = chain.finalized_head();
    assert_eq!(chain.storage("0x0102".to_string(), None), Some("0x03".to_string()));
    assert_eq!(chain.storage("0x0102".to_string(), Some(hash)), Some("0x03".to_string()));
    assert_eq!(chain.storage("0x07".to_string(), None), Some("0x0809".to_string()));
    assert_eq!(chain.storage("0x0103".to_string(), None), None);
    assert_eq!(chain.storage("0x0102".to_string(), Some([4u8; 32])), None);
}

#[test]
fn query_storage_at_gives_one_change_set_per_key() {
    let chain = genesis_chain();
    let hash = chain.finalized_head();
    let sets = chain.query_storage_at(vec!["0x0102".to_string(), "0x05".to_string()], None);
    assert_eq!(sets.len(), 2);
    assert_eq!(sets[0].block, hash);
    assert_eq!(sets[0].changes, vec![("0x0102".to_string(), Some("0x03".to_string()))]);
    assert_eq!(sets[1].changes, vec![("0x05".to_string(), None)]);
    let at = chain.query_storage_at(vec!["0x07".to_string()], Some(hash));
    assert_eq!(at[0].block, hash);
    assert_eq!(at[0].changes, vec![("0x07".to_string(), Some("0x0809".to_string()))]);
    assert!(chain.query_storage_at(vec!["0x07".to_string()], Some([2u8; 32])).is_empty());
}

#[test]
fn submitted_extrinsic_waits_in_pool() {
    let mut chain = genesis_chain();
    let h1 = chain.submit_extrinsic("0x0102".to_string());
    // the whole text is read as hex: with the `0x` it is not, and hashes as no bytes
    assert_eq!(h1, blake2(&[]));
    let h2 = chain.submit_extrinsic("0102".to_string());
    assert_eq!(h2, blake2(&[1, 2]));
    assert_ne!(h2, [0u8; 32]);
    assert_eq!(chain.pending_extrinsics(), vec!["0x0102".to_string(), "0102".to_string()]);
}

#[test]
fn watched_extrinsic_is_ready_then_in_block() {
    let mut chain = genesis_chain();
    let xt = "0x2804".to_string();
    let hash = chain.watch_extrinsic(xt.clone());
    assert_eq!(hash, blake2(xt.as_bytes()));
    match chain.watch_step(&hash) {
        WatchStep::Send { status: TransactionStatus::Ready, last } => assert!(!last),
        _ => panic!("expected a Ready status"),
    }
    assert!(matches!(chain.watch_step(&[3u8; 32]), WatchStep::Stop));

    let parent = chain.finalized_head();
    let block = next_block(parent, 1, vec![vec![0x28, 0x04]]);
    let block_hash = chain.import_block(1, block, vec![(vec![1, 2], vec![4])], vec![[5u8; 32]], vec![hash]);
    match chain.watch_step(&hash) {
        WatchStep::Send { status: TransactionStatus::InBlock((b, i)), last } => {
            assert_eq!(b, block_hash);
            assert_eq!(i, 0);
            assert!(last);
        }
        _ => panic!("expected an InBlock status"),
    }
    match chain.watch_step(&[5u8; 32]) {
        WatchStep::Send { status: TransactionStatus::Invalid, last } => assert!(last),
        _ => panic!("expected an Invalid status"),
    }
}

#[test]
fn imported_block_becomes_head() {
    let mut chain = genesis_chain();
    let genesis = chain.finalized_head();
    chain.submit_extrinsic("0x00".to_string());
    let block = next_block(genesis, 1, vec![vec![0xaa], vec![0xbb, 0xcc]]);
    let expected = block.hash();
    let hash = chain.import_block(1, block, vec![(vec![1, 2], vec![4])], vec![], vec![[1u8; 32], [2u8; 32]]);
    assert_eq!(hash, expected);
    assert_eq!(chain.finalized_head(), hash);
    assert_eq!(chain.block_hash(Some(NumberOrHex::Number(1))), Some(hash));
    assert_eq!(chain.block_hash(Some(NumberOrHex::Number(0))), Some(genesis));
    assert!(chain.pending_extrinsics().is_empty());
    assert_eq!(chain.header(None).unwrap().parent_hash, genesis);
    let b = chain.block(None).unwrap();
    assert_eq!(b.block.extrinsics, vec!["0xaa".to_string(), "0xbbcc".to_string()]);
    // the new state now, the old one at the genesis block
    assert_eq!(chain.storage("0x0102".to_string(), None), Some("0x04".to_string()));
    assert_eq!(chain.storage("0x0102".to_string(), Some(hash)), Some("0x04".to_string()));
    assert_eq!(chain.storage("0x0102".to_string(), Some(genesis)), Some("0x03".to_string()));
    assert_eq!(chain.storage("0x07".to_string(), None), None);
    match chain.watch_step(&[2u8; 32]) {
        WatchStep::Send { status: TransactionStatus::InBlock((b, 1)), last: true } => assert_eq!(b, hash),
        _ => panic!("expected the second extrinsic in the block"),
    }
}

#[test]
fn storage_subscriptions_add_each_key_once() {
    let mut chain = genesis_chain();
    chain.register_storage_keys(Some(vec!["0x0102".to_string(), "0x07".to_string(), "0x0102".to_string()]));
    chain.register_storage_keys(None);
    chain.register_storage_keys(Some(vec!["0x07".to_string(), "0x99".to_string()]));
    assert_eq!(
        chain.subs_storage_key,
        vec!["0x0102".to_string(), "0x07".to_string(), "0x99".to_string()]
    );
    let changes = chain.storage_changes();
    assert_eq!(
        changes,
        vec![(vec![1, 2], Some(vec![3])), (vec![7], Some(vec![8, 9])), (vec![0x99], None)]
    );
}

#[test]
fn initial_storage_changes_read_now() {
    let chain = genesis_chain();
    assert!(chain.initial_storage_changes(None).is_none());
    assert!(chain.initial_storage_changes(Some(vec![])).is_none());
    let set = chain
        .initial_storage_changes(Some(vec!["0x07".to_string(), "0x08".to_string()]))
        .unwrap();
    assert_eq!(set.block, [0u8; 32]);
    assert_eq!(
        set.changes,
        vec![("0x07".to_string(), Some("0x0809".to_string())), ("0x08".to_string(), None)]
    );
}

#[test]
fn notifications_report_top_level_changes() {
    let set = notification_change_set(
        [6u8; 32],
        vec![
            (None, vec![5], Some(vec![4])),
            (Some(vec![4]), vec![6], None),
            (None, vec![0xab, 0xcd], None),
        ],
    )
    .unwrap();
    assert_eq!(set.block, [6u8; 32]);
    assert_eq!(
        set.changes,
        vec![("0x05".to_string(), Some("0x04".to_string())), ("0xabcd".to_string(), None)]
    );
    assert!(notification_change_set([6u8; 32], vec![(Some(vec![4]), vec![5], Some(vec![4]))]).is_none());
    assert!(notification_change_set([6u8; 32], vec![]).is_none());
    // keys come back in a form that reads back to the same key
    assert_eq!(runstrate::hex_text::decode_storage_key(&set.changes[1].0), vec![0xab, 0xcd]);
    assert_eq!(prefixed_hex(&[0xab, 0xcd]), set.changes[1].0);
}

#[test]
fn query_storage_at_agrees_with_storage() {
    let mut chain = genesis_chain();
    let genesis = chain.finalized_head();
    let block = next_block(genesis, 1, vec![]);
    let hash = chain.import_block(1, block, vec![(vec![7], vec![1])], vec![], vec![]);
    let keys = vec!["0x0102".to_string(), "0x07".to_string(), "0xzz".to_string()];
    for at in [None, Some(genesis), Some(hash)] {
        let sets = chain.query_storage_at(keys.clone(), at);
        assert_eq!(sets.len(), keys.len());
        for (set, key) in sets.iter().zip(keys.iter()) {
            assert_eq!(set.block, at.unwrap_or(hash));
            assert_eq!(set.changes, vec![(key.clone(), chain.storage(key.clone(), at))]);
        }
    }
    assert_eq!(chain.storage("0x07".to_string(), Some(genesis)), Some("0x0809".to_string()));
    assert_eq!(chain.storage("0x07".to_string(), Some(hash)), Some("0x01".to_string()));
}

#[test]
fn query_storage_at_unknown_block_ignores_keys() {
    let chain = genesis_chain();
    // "é" cannot be cut after its second byte; an unknown block never reads the keys
    let sets = chain.query_storage_at(vec!["é".to_string(), "0x01".to_string()], Some([3u8; 32]));
    assert!(sets.is_empty());
}

#[test]
fn query_storage_at_empty_state_reads_nothing() {
    let chain = BlockChainData::genesis(genesis_block(), vec![]);
    let hash = chain.finalized_head();
    let sets = chain.query_storage_at(vec!["0x01".to_string(), "0x02".to_string()], Some(hash));
    assert_eq!(sets.len(), 2);
    assert_eq!(sets[0].block, hash);
    assert_eq!(sets[0].changes, vec![("0x01".to_string(), None)]);
    assert_eq!(sets[1].block, hash);
    assert_eq!(sets[1].changes, vec![("0x02".to_string(), None)]);
}

#[test]
fn blocks_are_stored_under_their_own_hashes() {
    let mut chain = genesis_chain();
    let genesis = chain.finalized_head();
    let block = next_block(genesis, 1, vec![vec![1, 2]]);
    let expected = block.hash();
    let hash = chain.import_block(1, block, vec![], vec![], vec![[9u8; 32]]);
    assert_eq!(hash, expected);
    assert_eq!(chain.block_hash(None), Some(hash));
    assert_eq!(chain.block_hash(Some(NumberOrHex::Hex(hash))), Some(hash));
    assert_eq!(chain.block_hash(Some(NumberOrHex::Hex(genesis))), Some(genesis));
    assert_eq!(chain.block_hash(Some(NumberOrHex::Number(1))), Some(hash));
    assert_eq!(chain.block_hash(Some(NumberOrHex::Number(0))), Some(genesis));
}
