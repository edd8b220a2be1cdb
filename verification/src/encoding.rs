//! Bytes as base64 text.
use base64::Engine;
use vstd::prelude::*;

use crate::text::joined;

verus! {

/// What the standard base64 engine makes of bytes: text in the standard alphabet,
/// with padding.
pub uninterp spec fn base64_text(data: Seq<u8>) -> Seq<char>;

/// What the standard base64 engine reads from a text: the bytes, or its own words
/// for what is wrong.
pub uninterp spec fn base64_bytes(text: Seq<char>) -> Result<Seq<u8>, Seq<char>>;

/// The standard base64 engine reads these bytes from the text.
pub open spec fn decodes_to(text: Seq<char>, data: Seq<u8>) -> bool {
    base64_bytes(text) == Ok::<Seq<u8>, Seq<char>>(data)
}

/// The outcome of decoding, with its parts as sequences.
pub open spec fn outcome_view(r: Result<Vec<u8>, String>) -> Result<Seq<u8>, Seq<char>> {
    match r {
        Ok(bytes) => Ok(bytes@),
        Err(e) => Err(e@),
    }
}

/// The base64 text of that many bytes can be held in memory: it has four characters for
/// every three bytes, and for what is left of them.
pub open spec fn fits_as_base64(len: nat) -> bool {
    (len + 2) / 3 * 4 <= isize::MAX
}

/// `base64::Engine::encode` of the standard engine. The text depends on the bytes
/// alone, and decoding it gives the bytes back. Which characters it has is left to
/// the engine; its length must fit in memory.
#[verifier::external_body]
fn encode(data: &[u8]) -> (r: String)
    requires
        fits_as_base64(data@.len()),
    ensures
        r@ == base64_text(data@),
        decodes_to(r@, data@),
{
    base64::engine::general_purpose::STANDARD.encode(data)
}

/// `base64::Engine::decode` of the standard engine: the bytes, or the text of its
/// error. Both depend on the text alone.
#[verifier::external_body]
fn decode(text: &str) -> (r: Result<Vec<u8>, String>)
    ensures
        outcome_view(r) == base64_bytes(text@),
{
    base64::engine::general_purpose::STANDARD.decode(text).map_err(|e| e.to_string())
}

/// The base64 text of bytes. Decoding it gives the bytes back.
pub fn base64_encode(data: &[u8]) -> (r: String)
    requires
        fits_as_base64(data@.len()),
    ensures
        r@ == base64_text(data@),
        decodes_to(r@, data@),
{
    encode(data)
}

/// What a decoder's result means to the caller: an error is told as such.
pub open spec fn decoded_as(outcome: Result<Seq<u8>, Seq<char>>) -> Result<Seq<u8>, Seq<char>> {
    match outcome {
        Ok(bytes) => Ok(bytes),
        Err(e) => Err("Base64 decode error: "@ + e),
    }
}

/// Says of a decoder's error that it is one.
pub fn decode_result(outcome: Result<Vec<u8>, String>) -> (r: Result<Vec<u8>, String>)
    ensures
        outcome_view(r) == decoded_as(outcome_view(outcome)),
{
    match outcome {
        Ok(bytes) => Ok(bytes),
        Err(e) => Err(joined("Base64 decode error: ", e.as_str())),
    }
}

/// The bytes of a base64 text.
pub fn base64_decode(data: &str) -> (r: Result<Vec<u8>, String>)
    ensures
        outcome_view(r) == decoded_as(base64_bytes(data@)),
{
    decode_result(decode(data))
}

/// What the decoder read is passed on as it is; what it complains about is passed on behind
/// words that say so.
pub proof fn law_decoding_is_passed_on(bytes: Seq<u8>, e: Seq<char>)
    ensures
        decoded_as(Ok(bytes)) == Ok::<Seq<u8>, Seq<char>>(bytes),
        decoded_as(Err(e)) == Err::<Seq<u8>, Seq<char>>("Base64 decode error: "@ + e),
{
}

} // verus!
