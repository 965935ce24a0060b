use runstrate::block::{build_block, genesis_header, DigestItem, Header};
use runstrate::hashing::hash_eq;
use runstrate::keyed::HashKeyed;
use runstrate::production::genesis_block;
use runstrate::rpc_types::{Justifications, MockSignedBlock, NumberOrHex};
use runstrate::state::StateSnapshot;
use sp_runtime::generic::{Digest, Header as RuntimeHeader};
use sp_runtime::traits::{BlakeTwo256, Header as _};

fn runtime_hash(header: &Header) -> [u8; 32] {
    let logs = header
        .digest
        .iter()
        .map(|d| match d.clone() {
            DigestItem::PreRuntime(id, v) => sp_runtime::DigestItem::PreRuntime(id, v),
            DigestItem::Consensus(id, v) => sp_runtime::DigestItem::Consensus(id, v),
            DigestItem::Seal(id, v) => sp_runtime::DigestItem::Seal(id, v),
            DigestItem::Other(v) => sp_runtime::DigestItem::Other(v),
            DigestItem::RuntimeEnvironmentUpdated => {
                sp_runtime::DigestItem::RuntimeEnvironmentUpdated
            }
        })
        .collect();
    RuntimeHeader::<u32, BlakeTwo256>::new(
        header.number,
        header.extrinsics_root.into(),
        header.state_root.into(),
        header.parent_hash.into(),
        Digest { logs },
    )
    .hash()
    .0
}

#[test]
fn genesis_header_fields() {
    let h = genesis_header();
    assert_eq!(h.number, 0);
    assert_eq!(h.parent_hash, [0u8; 32]);
    assert_eq!(h.state_root, [1u8; 32]);
    assert_eq!(h.extrinsics_root, [1u8; 32]);
    assert!(h.digest.is_empty());
    let b = genesis_block();
    assert!(b.extrinsics.is_empty());
}

#[test]
fn block_hash_is_the_runtime_header_hash() {
    let b = genesis_block();
    let expected = RuntimeHeader::<u32, BlakeTwo256>::new(
        0,
        [1u8; 32].into(),
        [1u8; 32].into(),
        Default::default(),
        Default::default(),
    )
    .hash()
    .0;
    assert_eq!(b.hash(), expected);
    assert_ne!(b.hash(), [0u8; 32]);

    let header = Header {
        parent_hash: b.hash(),
        number: 7,
        state_root: [3u8; 32],
        extrinsics_root: [4u8; 32],
        digest: vec![
            DigestItem::PreRuntime(*b"aura", vec![1, 2]),
            DigestItem::Other(vec![9]),
            DigestItem::RuntimeEnvironmentUpdated,
        ],
    };
    let block = build_block(header, vec![vec![1, 2, 3]]);
    assert_eq!(block.hash(), runtime_hash(&block.header));
    assert_ne!(block.hash(), b.hash());
}

#[test]
fn clones_keep_every_field() {
    let header = Header {
        parent_hash: [5u8; 32],
        number: 3,
        state_root: [6u8; 32],
        extrinsics_root: [7u8; 32],
        digest: vec![DigestItem::Seal(*b"babe", vec![4, 5]), DigestItem::Consensus(*b"aura", vec![])],
    };
    let block = build_block(header, vec![vec![1], vec![]]);
    let copy = block.clone();
    assert_eq!(copy.hash(), block.hash());
    assert_eq!(copy.extrinsics, block.extrinsics);
    assert_eq!(copy.header.digest.len(), 2);
}

#[test]
fn hashes_compare_by_every_byte() {
    let a = [7u8; 32];
    let mut b = [7u8; 32];
    assert!(hash_eq(&a, &b));
    b[31] = 8;
    assert!(!hash_eq(&a, &b));
    b[31] = 7;
    b[0] = 0;
    assert!(!hash_eq(&a, &b));
}

#[test]
fn hash_keyed_read_after_write() {
    let mut m: HashKeyed<u32> = HashKeyed::new();
    assert_eq!(m.get(&[1u8; 32]), None);
    m.insert([1u8; 32], 10);
    m.insert([2u8; 32], 20);
    assert_eq!(m.get(&[1u8; 32]), Some(&10));
    assert_eq!(m.get(&[2u8; 32]), Some(&20));
    m.insert([1u8; 32], 11);
    assert_eq!(m.get(&[1u8; 32]), Some(&11));
    assert_eq!(m.get(&[2u8; 32]), Some(&20));
    assert_eq!(m.get(&[3u8; 32]), None);
}

#[test]
fn snapshot_reads_what_it_was_made_of() {
    let s = StateSnapshot::new(vec![
        (vec![1, 2], vec![3]),
        (vec![4], vec![]),
        (vec![1, 2], vec![5, 6]),
    ]);
    assert_eq!(s.read(&[1, 2]), Some(vec![5, 6]));
    assert_eq!(s.read(&[4]), Some(vec![]));
    assert_eq!(s.read(&[9]), None);
    let d = s.duplicate();
    assert_eq!(d.read(&[1, 2]), Some(vec![5, 6]));
    assert_eq!(d.read(&[9]), None);
}

#[test]
fn signed_block_writes_extrinsics_as_hex() {
    let block = build_block(genesis_header(), vec![vec![0xab, 0x01], vec![]]);
    let signed = MockSignedBlock::new(block, Some(Justifications(vec![(*b"FRNK", vec![1])])));
    assert_eq!(signed.block.extrinsics, vec!["0xab01".to_string(), "0x".to_string()]);
    assert_eq!(signed.block.header.number, 0);
    assert_eq!(signed.justifications.unwrap().0, vec![(*b"FRNK", vec![1])]);
}

#[test]
fn number_or_hex_defaults_to_block_zero() {
    assert!(matches!(NumberOrHex::default(), NumberOrHex::Number(0)));
}
