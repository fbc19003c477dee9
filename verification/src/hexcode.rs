//! Lowercase hexadecimal text, produced and parsed by the `hex` crate.

use vstd::prelude::*;
use vstd::utf8::{encode_utf8, is_ascii_chars, is_ascii_chars_encode_utf8};
use crate::bytes::to_array32;

verus! {

/// The lowercase hexadecimal digit for a value below sixteen.
pub open spec fn hex_digit(nibble: int) -> char {
    seq!['0', '1', '2', '3', '4', '5', '6', '7', '8', '9', 'a', 'b', 'c', 'd', 'e', 'f'][nibble]
}

/// The hexadecimal text of `bytes`: two lowercase digits per byte, high nibble first.
pub open spec fn hex_string(bytes: Seq<u8>) -> Seq<char> {
    Seq::new(
        2 * bytes.len(),
        |i: int|
            if i % 2 == 0 {
                hex_digit(bytes[i / 2] as int / 16)
            } else {
                hex_digit(bytes[i / 2] as int % 16)
            },
    )
}

/// The value of an ASCII hexadecimal digit of either case.
pub open spec fn hex_value(digit: u8) -> Option<int> {
    if 0x30 <= digit <= 0x39 {
        Some(digit - 0x30)
    } else if 0x61 <= digit <= 0x66 {
        Some(digit - 0x61 + 10)
    } else if 0x41 <= digit <= 0x46 {
        Some(digit - 0x41 + 10)
    } else {
        None
    }
}

/// Whether `text` is an even number of hexadecimal digits.
pub open spec fn is_hex(text: Seq<u8>) -> bool {
    &&& text.len() % 2 == 0
    &&& forall|i: int| 0 <= i < text.len() ==> (#[trigger] hex_value(text[i])) is Some
}

/// The bytes that the hexadecimal digits of `text` spell, two digits per byte.
pub open spec fn hex_bytes(text: Seq<u8>) -> Seq<u8> {
    Seq::new(
        text.len() / 2,
        |i: int| (hex_value(text[2 * i])->0 * 16 + hex_value(text[2 * i + 1])->0) as u8,
    )
}

/// Whether `text` spells exactly 32 bytes in hexadecimal.
pub open spec fn is_hex_32(text: Seq<char>) -> bool {
    is_hex(encode_utf8(text)) && encode_utf8(text).len() == 64
}

/// `hex::FromHexError`: why `hex::decode` refused a text.
#[verifier::external_type_specification]
#[verifier::external_body]
pub struct ExFromHexError(hex::FromHexError);

/// Calls `hex::encode`, which writes each byte as two lowercase digits.
#[verifier::external_body]
pub(crate) fn hex_encode(data: &[u8]) -> (text: String)
    ensures
        text@ == hex_string(data@),
{
    hex::encode(data)
}

/// Calls `hex::decode`, which accepts an even number of digits of either
/// case and fails on anything else.
#[verifier::external_body]
pub(crate) fn hex_decode(text: &[u8]) -> (decoded: Result<Vec<u8>, hex::FromHexError>)
    ensures
        decoded is Ok <==> is_hex(text@),
        decoded matches Ok(bytes) ==> bytes@ == hex_bytes(text@),
{
    hex::decode(text)
}

/// Hexadecimal text is ASCII, so its UTF-8 bytes are its characters.
pub proof fn lemma_hex_string_ascii(bytes: Seq<u8>)
    ensures
        is_ascii_chars(hex_string(bytes)),
        encode_utf8(hex_string(bytes)).len() == 2 * bytes.len(),
        forall|i: int|
            0 <= i < 2 * bytes.len() ==> #[trigger] encode_utf8(hex_string(bytes))[i]
                == hex_string(bytes)[i] as u8,
{
    is_ascii_chars_encode_utf8(hex_string(bytes));
}

/// Decoding the hexadecimal text of `bytes` gives `bytes` back.
pub proof fn lemma_hex_round_trip(bytes: Seq<u8>)
    ensures
        is_hex(encode_utf8(hex_string(bytes))),
        hex_bytes(encode_utf8(hex_string(bytes))) == bytes,
{
    lemma_hex_string_ascii(bytes);
}

/// Parses hexadecimal text into bytes; `None` unless the text is an even
/// number of hexadecimal digits.
pub fn parse_hex_vec(text: &str) -> (parsed: Option<Vec<u8>>)
    ensures
        parsed is Some <==> is_hex(encode_utf8(text@)),
        parsed matches Some(bytes) ==> bytes@ == hex_bytes(encode_utf8(text@)),
{
    match hex_decode(text.as_bytes()) {
        Ok(bytes) => Some(bytes),
        Err(_) => None,
    }
}

/// Parses the hexadecimal text of a 32-byte identifier; `None` unless the
/// text is exactly 64 hexadecimal digits.
pub fn parse_hex_32(text: &str) -> (parsed: Option<[u8; 32]>)
    ensures
        parsed is Some <==> is_hex_32(text@),
        parsed matches Some(id) ==> id@ == hex_bytes(encode_utf8(text@)),
{
    match hex_decode(text.as_bytes()) {
        Ok(bytes) => {
            if bytes.len() != 32 {
                None
            } else {
                Some(to_array32(bytes.as_slice()))
            }
        },
        Err(_) => None,
    }
}

} // verus!
