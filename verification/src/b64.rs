//! Base64 display of key material: standard alphabet with padding, and the
//! exact inverse on decode.

use vstd::prelude::*;

use crate::SigError;

verus! {

/// The base64 text (standard alphabet, with padding) of a byte sequence.
pub uninterp spec fn b64_of(bytes: Seq<u8>) -> Seq<char>;

/// What decoding a text as base64 (standard alphabet, with padding) yields:
/// the bytes, or nothing where the text is not valid base64.
pub uninterp spec fn b64_decode_of(text: Seq<char>) -> Option<Seq<u8>>;

/// Relies on base64::Engine::encode with the BASE64_STANDARD engine: the text
/// is a function of the bytes alone, decoding it gives the bytes back, and it
/// is four characters for every three bytes begun.
#[verifier::external_body]
fn encode_ext(bytes: &Vec<u8>) -> (r: String)
    ensures
        r@ == b64_of(bytes@),
        b64_decode_of(r@) == Some(bytes@),
        r@.len() == 4 * ((bytes@.len() + 2) / 3),
{
    base64::Engine::encode(&base64::prelude::BASE64_STANDARD, bytes.as_slice())
}

/// Relies on base64::Engine::decode with the BASE64_STANDARD engine: the
/// outcome is a function of the text alone, and decoding fails exactly on
/// text that is not valid base64.
#[verifier::external_body]
fn decode_ext(text: &String) -> (r: Result<Vec<u8>, SigError>)
    ensures
        r is Ok <==> b64_decode_of(text@) is Some,
        r is Ok ==> Some(r->Ok_0@) == b64_decode_of(text@),
        r is Err ==> r->Err_0 is EncodingFailure,
{
    match base64::Engine::decode(&base64::prelude::BASE64_STANDARD, text.as_bytes()) {
        Ok(v) => Ok(v),
        Err(_) => Err(SigError::EncodingFailure),
    }
}

/// Encodes bytes as base64 text. Decoding the text gives the bytes back
/// byte for byte.
pub fn encode(bytes: &Vec<u8>) -> (r: String)
    ensures
        r@ == b64_of(bytes@),
        b64_decode_of(r@) == Some(bytes@),
        r@.len() == 4 * ((bytes@.len() + 2) / 3),
{
    encode_ext(bytes)
}

/// Decodes base64 text to bytes, or reports an encoding failure where the
/// text is not valid base64.
pub fn decode(text: &String) -> (r: Result<Vec<u8>, SigError>)
    ensures
        r is Ok <==> b64_decode_of(text@) is Some,
        r is Ok ==> Some(r->Ok_0@) == b64_decode_of(text@),
        r is Err ==> r->Err_0 is EncodingFailure,
{
    decode_ext(text)
}

/// Decodes base64 text that must yield exactly `len` bytes, as key material
/// of a fixed size must: a mismatch in length is a reported error, never a
/// silent truncation or pad.
pub fn decode_exact(text: &String, len: usize) -> (r: Result<Vec<u8>, SigError>)
    ensures
        r is Ok <==> (b64_decode_of(text@) matches Some(b) && b.len() == len),
        r is Ok ==> Some(r->Ok_0@) == b64_decode_of(text@),
        r is Err ==> r->Err_0 is EncodingFailure,
{
    match decode_ext(text) {
        Ok(v) => {
            if v.len() == len {
                Ok(v)
            } else {
                Err(SigError::EncodingFailure)
            }
        },
        Err(e) => Err(e),
    }
}

} // verus!
