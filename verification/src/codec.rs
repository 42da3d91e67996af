//! The binary encoding that the server and clients share (the `bitcode`
//! crate), for the plain values that the game logic encodes itself.
use vstd::prelude::*;

verus! {

/// `bitcode`'s decoding error.
#[verifier::external_type_specification]
#[verifier::external_body]
pub struct ExBitcodeError(bitcode::Error);

/// The bytes that `bitcode::encode` writes for a string.
pub uninterp spec fn bitcode_text_bytes(text: Seq<char>) -> Seq<u8>;

/// The string that `bitcode::decode::<String>` reads from bytes, if they hold one.
pub uninterp spec fn bitcode_text_decoded(bytes: Seq<u8>) -> Option<Seq<char>>;

/// The bytes that `bitcode::encode` writes for one `i16`: its two bytes,
/// least significant first (a lone 16-bit integer is never packed).
pub open spec fn i16_le_bytes(value: i16) -> Seq<u8> {
    seq![(value as u16) as u8, ((value as u16) >> 8u16) as u8]
}

/// `bitcode::encode::<String>`: the encoding is a function of the text alone.
#[verifier::external_body]
fn bitcode_encode_string(text: &String) -> (bytes: Vec<u8>)
    ensures
        bytes@ == bitcode_text_bytes(text@),
{
    bitcode::encode(text)
}

/// `bitcode::encode::<i16>`: one `i16` is written as its two little-endian bytes
/// (`skip_packing` holds for a single 16-bit integer, and `pack16` writes
/// `to_le_bytes`).
#[verifier::external_body]
fn bitcode_encode_i16(value: &i16) -> (bytes: Vec<u8>)
    ensures
        bytes@ == i16_le_bytes(*value),
{
    bitcode::encode(value)
}

/// `bitcode::decode::<String>`: succeeds exactly on the bytes that hold a string,
/// and reads back the string that `bitcode::encode` wrote (the crate documents
/// `decode(&encode(&x)) == x`).
#[verifier::external_body]
fn bitcode_decode_string(bytes: &[u8]) -> (r: Result<String, bitcode::Error>)
    ensures
        r is Ok <==> bitcode_text_decoded(bytes@) is Some,
        r matches Ok(text) ==> bitcode_text_decoded(bytes@) == Some(text@),
        forall|t: Seq<char>| bytes@ == bitcode_text_bytes(t) ==> (r is Ok && r->Ok_0@ == t),
{
    bitcode::decode::<String>(bytes)
}

/// Bytes that hold no encoded string.
#[derive(Debug, Clone, Copy, PartialEq, Eq)]
pub struct MalformedBytes;

/// The encoding of a text.
pub fn encode_text(text: &String) -> (bytes: Vec<u8>)
    ensures
        bytes@ == bitcode_text_bytes(text@),
{
    bitcode_encode_string(text)
}

/// The encoding of an `i16`: its two little-endian bytes.
pub fn encode_i16(value: i16) -> (bytes: Vec<u8>)
    ensures
        bytes@ == i16_le_bytes(value),
{
    bitcode_encode_i16(&value)
}

/// The text that bytes hold; decoding what `encode_text` wrote gives the text back.
pub fn decode_text(bytes: &[u8]) -> (r: Result<String, MalformedBytes>)
    ensures
        r is Ok <==> bitcode_text_decoded(bytes@) is Some,
        r matches Ok(text) ==> bitcode_text_decoded(bytes@) == Some(text@),
        forall|t: Seq<char>| bytes@ == bitcode_text_bytes(t) ==> (r matches Ok(text) && text@ == t),
{
    match bitcode_decode_string(bytes) {
        Ok(text) => Ok(text),
        Err(_) => Err(MalformedBytes),
    }
}

} // verus!
