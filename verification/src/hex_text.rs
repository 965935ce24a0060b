//! Hexadecimal text as the node speaks it on the wire: lower-case digits,
//! usually behind a `0x` prefix.
use vstd::prelude::*;
use vstd::string::*;
use vstd::utf8::*;

verus! {

/// The lower-case hex digit for a nibble.
pub open spec fn hex_digit(n: u8) -> char
    recommends
        n < 16,
{
    if n < 10 {
        (48 + n) as char
    } else {
        (87 + n) as char
    }
}

/// Lower-case hex text of a byte string: two digits per byte, high nibble first.
pub open spec fn hex_text(bytes: Seq<u8>) -> Seq<char>
    decreases bytes.len(),
{
    if bytes.len() == 0 {
        Seq::empty()
    } else {
        seq![hex_digit(bytes[0] / 16), hex_digit(bytes[0] % 16)] + hex_text(bytes.drop_first())
    }
}

/// The value of one hex digit (either case), if the byte is one.
pub open spec fn hex_value(c: u8) -> Option<u8> {
    if 48 <= c <= 57 {
        Some((c - 48) as u8)
    } else if 65 <= c <= 70 {
        Some((c - 55) as u8)
    } else if 97 <= c <= 102 {
        Some((c - 87) as u8)
    } else {
        None
    }
}

/// The bytes that hex text (as bytes) stands for; `None` for an odd length or
/// a byte that is not a hex digit.
pub open spec fn hex_bytes(text: Seq<u8>) -> Option<Seq<u8>>
    decreases text.len(),
{
    if text.len() % 2 != 0 {
        None
    } else if text.len() == 0 {
        Some(Seq::empty())
    } else {
        match (hex_value(text[0]), hex_value(text[1]), hex_bytes(text.skip(2))) {
            (Some(hi), Some(lo), Some(rest)) => Some(seq![(hi * 16 + lo) as u8] + rest),
            _ => None,
        }
    }
}

/// `0x` followed by the hex text of `bytes`.
pub open spec fn prefixed_hex_text(bytes: Seq<u8>) -> Seq<char> {
    seq!['0', 'x'] + hex_text(bytes)
}

/// The outside decoder's error.
#[verifier::external_type_specification]
#[verifier::external_body]
pub struct ExFromHexError(hex::FromHexError);

/// `hex::encode`: each byte becomes two lower-case digits from the table
/// `0123456789abcdef`, high nibble first (the crate's `byte2hex`).
#[verifier::external_body]
fn hex_encode(data: &[u8]) -> (text: String)
    ensures
        text@ == hex_text(data@),
{
    hex::encode(data)
}

/// `hex::decode`: an odd length is refused, then every pair of digits (either
/// case) becomes one byte; any other byte is refused.
#[verifier::external_body]
fn hex_decode(text: &[u8]) -> (res: Result<Vec<u8>, hex::FromHexError>)
    ensures
        res is Ok <==> hex_bytes(text@) is Some,
        res matches Ok(v) ==> v@ == hex_bytes(text@).unwrap(),
{
    hex::decode(text)
}

/// Hex text with a `0x` prefix, the form in which storage values, extrinsics
/// and metadata leave the node.
pub fn prefixed_hex(data: &[u8]) -> (text: String)
    ensures
        text@ == prefixed_hex_text(data@),
{
    let digits = hex_encode(data);
    let mut text = String::from_str("0x");
    proof {
        reveal_strlit("0x");
    }
    text.append(digits.as_str());
    text
}


/// The bytes that hex text stands for, or nothing when it is not hex.
pub open spec fn hex_bytes_or_empty(text: Seq<u8>) -> Seq<u8> {
    match hex_bytes(text) {
        Some(bytes) => bytes,
        None => Seq::empty(),
    }
}

/// Decodes hex text (without prefix); text that is not hex gives no bytes.
pub fn decode_hex_or_empty(text: &[u8]) -> (bytes: Vec<u8>)
    ensures
        bytes@ == hex_bytes_or_empty(text@),
{
    match hex_decode(text) {
        Ok(bytes) => bytes,
        Err(_) => Vec::new(),
    }
}

/// The bytes a storage key names: the key's UTF-8 bytes after the first two
/// (the `0x`), read as hex; nothing when they are not hex.
pub open spec fn key_bytes(key: Seq<char>) -> Seq<u8> {
    hex_bytes_or_empty(encode_utf8(key).skip(2))
}

/// Whether the text after the first two bytes of `text` can be cut off there.
pub open spec fn strippable(text: Seq<char>) -> bool {
    is_char_boundary(encode_utf8(text), 2)
}

/// The storage key that a key in its text form names. The text after the
/// first two bytes is decoded as hex; text that is not hex names the empty key.
pub fn decode_storage_key(key: &str) -> (bytes: Vec<u8>)
    requires
        strippable(key@),
    ensures
        bytes@ == key_bytes(key@),
{
    let (_, rest) = key.split_at(2);
    decode_hex_or_empty(rest.as_bytes())
}

/// The bytes of a pending extrinsic given in its text form (`0x` and hex):
/// the text after the first two bytes read as hex, or nothing when it is not
/// hex.
pub fn extrinsic_payload(xt: &str) -> (bytes: Option<Vec<u8>>)
    requires
        strippable(xt@),
    ensures
        match bytes {
            Some(b) => hex_bytes(encode_utf8(xt@).skip(2)) == Some(b@),
            None => hex_bytes(encode_utf8(xt@).skip(2)) is None,
        },
{
    let (_, rest) = xt.split_at(2);
    match hex_decode(rest.as_bytes()) {
        Ok(bytes) => Some(bytes),
        Err(_) => None,
    }
}

/// The characters of hex text as the bytes that encode them.
pub open spec fn ascii_bytes(text: Seq<char>) -> Seq<u8> {
    text.map_values(|c: char| c as u8)
}

proof fn lemma_hex_digit(n: u8)
    requires
        n < 16,
    ensures
        hex_digit(n) as u8 == (if n < 10 { 48 + n } else { 87 + n }),
        hex_value(hex_digit(n) as u8) == Some(n),
        '\0' <= hex_digit(n) <= '\u{7f}',
{
    let c = hex_digit(n);
    if n < 10 {
        char_u32_cast(c, (48 + n) as u32);
    } else {
        char_u32_cast(c, (87 + n) as u32);
    }
}

proof fn lemma_hex_text(bytes: Seq<u8>)
    ensures
        hex_text(bytes).len() == 2 * bytes.len(),
        is_ascii_chars(hex_text(bytes)),
        hex_bytes(ascii_bytes(hex_text(bytes))) == Some(bytes),
    decreases bytes.len(),
{
    if bytes.len() > 0 {
        let b = bytes[0];
        let rest = bytes.drop_first();
        lemma_hex_text(rest);
        lemma_hex_digit(b / 16);
        lemma_hex_digit(b % 16);
        let t = hex_text(bytes);
        assert(t =~= seq![hex_digit(b / 16), hex_digit(b % 16)] + hex_text(rest));
        let tb = ascii_bytes(t);
        assert(tb.skip(2) =~= ascii_bytes(hex_text(rest)));
        assert(((b / 16) * 16 + b % 16) as u8 == b);
        assert(seq![b] + rest =~= bytes);
    }
}

/// Keys leave the node as `0x` and lower-case hex (storage notifications) and
/// come back in that form: reading such a key gives back the bytes it was
/// made from.
pub proof fn lemma_key_round_trip(bytes: Seq<u8>)
    ensures
        strippable(prefixed_hex_text(bytes)),
        key_bytes(prefixed_hex_text(bytes)) == bytes,
{
    let text = prefixed_hex_text(bytes);
    lemma_hex_text(bytes);
    assert(is_ascii_chars(seq!['0', 'x'])) by {
        char_u32_cast('0', 48);
        char_u32_cast('x', 120);
    }
    is_ascii_chars_concat(text, seq!['0', 'x'], hex_text(bytes));
    is_ascii_chars_encode_utf8(text);
    let enc = encode_utf8(text);
    encode_utf8_valid_utf8(text);
    assert(enc.skip(2) =~= ascii_bytes(hex_text(bytes)));
    if enc.len() == 2 {
        is_char_boundary_start_end_of_seq(enc);
    } else {
        is_char_boundary_iff_is_leading_byte(enc, 2);
    }
}

} // verus!
