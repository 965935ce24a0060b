use runstrate::node::{
    methods, random_runtime_version, runtime_version_for, system_chain, system_name, system_type,
    system_version, Args,
};
use runstrate::production::{
    check_pending_extrinsics, current_time, genesis_balances, millis_since_epoch, saturate_millis,
    signer_of,
    Signer, SignerAddress, ENDOWMENT,
};
use runstrate::rpc_types::{ChainType, RpcMethods};
use sp_core::Hasher;

fn blake2(data: &[u8]) -> [u8; 32] {
    sp_core::Blake2Hasher::hash(data).0
}

#[test]
fn pending_extrinsics_split_by_decoding() {
    let pool = vec!["0x01".to_string(), "0xzz".to_string(), "0x03".to_string()];
    let (valid, invalid) = check_pending_extrinsics(pool, vec![Some(10u32), None, Some(30u32)]);
    assert_eq!(valid, vec![(blake2(b"0x01"), 10), (blake2(b"0x03"), 30)]);
    assert_eq!(invalid, vec![blake2(b"0xzz")]);
    let (valid, invalid) = check_pending_extrinsics::<u8>(vec![], vec![]);
    assert!(valid.is_empty() && invalid.is_empty());
}

#[test]
fn signer_choice() {
    assert!(matches!(signer_of(Some(SignerAddress::Id(5u8))), Some(Signer::Account(5))));
    assert!(matches!(signer_of::<u8>(Some(SignerAddress::Address32([2u8; 32]))), Some(Signer::Raw(a)) if a == [2u8; 32]));
    assert!(matches!(signer_of::<u8>(Some(SignerAddress::Other)), Some(Signer::Fallback)));
    assert!(signer_of::<u8>(None).is_none());
}

#[test]
fn genesis_balances_endow_every_account() {
    assert_eq!(genesis_balances(None, vec!["alice", "bob"]), vec![("alice", ENDOWMENT), ("bob", ENDOWMENT)]);
    assert_eq!(genesis_balances(Some(vec!["carol"]), vec!["alice", "bob"]), vec![("carol", 1_000_000_000_000_000u128)]);
    assert!(genesis_balances::<u8>(Some(vec![]), vec![1]).is_empty());
}

#[test]
fn millis_saturate_at_u64_max() {
    assert_eq!(saturate_millis(1_700_000_000_000), 1_700_000_000_000);
    assert_eq!(saturate_millis(u64::MAX as u128), u64::MAX);
    assert_eq!(saturate_millis(u64::MAX as u128 + 1), u64::MAX);
    assert_eq!(saturate_millis(0), 0);
}

#[test]
fn clock_readings_become_millis() {
    assert_eq!(millis_since_epoch(None), 0);
    assert_eq!(millis_since_epoch(Some(0)), 0);
    assert_eq!(millis_since_epoch(Some(1_700_000_000_123)), 1_700_000_000_123);
    assert_eq!(millis_since_epoch(Some(u64::MAX as u128)), u64::MAX);
    assert_eq!(millis_since_epoch(Some(u64::MAX as u128 + 5)), u64::MAX);
    // readings in clock order give times in the same order
    let readings = [None, Some(5u128), Some(1_700_000_000_000), Some(u128::MAX)];
    for pair in readings.windows(2) {
        assert!(millis_since_epoch(pair[0]) <= millis_since_epoch(pair[1]));
    }
}

#[test]
fn current_time_is_after_2020() {
    assert!(current_time() > 1_577_836_800_000);
}

#[test]
fn default_args_match_the_documented_defaults() {
    let args = Args::default();
    assert_eq!(args.host, "0.0.0.0");
    assert_eq!(args.port, 9944);
    assert_eq!(args.block_time, 6000);
    assert_eq!(args.pause_after_block(), Some(6000));
    let instant = Args { host: "127.0.0.1".to_string(), port: 1, block_time: 0 };
    assert_eq!(instant.pause_after_block(), None);
}

#[test]
fn system_information() {
    assert_eq!(system_name(), "Runstrate");
    assert_eq!(system_version(), "v0.0.2");
    assert_eq!(system_chain(), "dev");
    assert!(matches!(system_type(), ChainType::Development));
    assert!(methods() == RpcMethods::Unsafe);
}

#[test]
fn runtime_versions() {
    let v = runtime_version_for(42);
    assert_eq!(v.spec_name, "runstrate-node");
    assert_eq!(v.impl_name, "runstrate-node");
    assert_eq!((v.authoring_version, v.spec_version, v.impl_version, v.transaction_version), (42, 42, 42, 42));
    assert!(v.apis.is_empty());
    assert_eq!(v.state_version, 1);
    for _ in 0..50 {
        let r = random_runtime_version();
        assert!(r.authoring_version < 1000);
        assert_eq!(r.spec_version, r.authoring_version);
        assert_eq!(r.transaction_version, r.authoring_version);
    }
}
