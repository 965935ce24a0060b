use runstrate::hex_text::{decode_hex_or_empty, decode_storage_key, extrinsic_payload, prefixed_hex};

#[test]
fn prefixed_hex_writes_lower_case_digits() {
    assert_eq!(prefixed_hex(&[0xde, 0xad, 0x01, 0xB0]), "0xdead01b0");
    assert_eq!(prefixed_hex(&[]), "0x");
    assert_eq!(prefixed_hex(&[0x00, 0x0f, 0xf0]), "0x000ff0");
}

#[test]
fn storage_key_reads_hex_after_prefix() {
    assert_eq!(decode_storage_key("0xDEad01"), vec![0xde, 0xad, 0x01]);
    assert_eq!(decode_storage_key("0x"), Vec::<u8>::new());
    // the first two bytes are dropped whatever they are
    assert_eq!(decode_storage_key("ab0102"), vec![0x01, 0x02]);
}

#[test]
fn storage_key_that_is_not_hex_names_the_empty_key() {
    assert_eq!(decode_storage_key("0xzz"), Vec::<u8>::new());
    assert_eq!(decode_storage_key("0x123"), Vec::<u8>::new());
    assert_eq!(decode_storage_key("0xé1"), Vec::<u8>::new());
}

#[test]
fn storage_key_round_trip() {
    let bytes = vec![0x26, 0xaa, 0x39, 0x4e, 0xea, 0x56, 0x30, 0xe0, 0x7c, 0x48];
    assert_eq!(decode_storage_key(&prefixed_hex(&bytes)), bytes);
    assert_eq!(decode_storage_key(&prefixed_hex(&[])), Vec::<u8>::new());
}

#[test]
fn hex_without_prefix() {
    assert_eq!(decode_hex_or_empty(b"0102ff"), vec![1, 2, 0xff]);
    assert_eq!(decode_hex_or_empty(b"0x0102"), Vec::<u8>::new());
    assert_eq!(decode_hex_or_empty(b"1"), Vec::<u8>::new());
}

#[test]
fn extrinsic_payload_decodes_hex() {
    assert_eq!(extrinsic_payload("0x280403000b"), Some(vec![0x28, 0x04, 0x03, 0x00, 0x0b]));
    assert_eq!(extrinsic_payload("0x"), Some(Vec::<u8>::new()));
    assert_eq!(extrinsic_payload("0xzz"), None);
    assert_eq!(extrinsic_payload("0x123"), None);
}
