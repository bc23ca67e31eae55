use vstd::prelude::*;

use base64::Engine;

verus! {

/// The standard base64 encoding (with padding) of a byte sequence.
pub uninterp spec fn b64_of(data: Seq<u8>) -> Seq<char>;

/// What standard base64 decoding yields on a character sequence: the decoded
/// bytes, or nothing where the text is not valid base64.
pub uninterp spec fn b64_parse(text: Seq<char>) -> Option<Seq<u8>>;

/// Relies on base64's `general_purpose::STANDARD` engine: encoding is a
/// function of the input bytes alone, emits four characters per (padded)
/// three-byte block, and decoding the emitted text returns the input.
#[verifier::external_body]
pub(crate) fn b64_encode_raw(data: &[u8]) -> (r: String)
    ensures
        r@ == b64_of(data@),
        b64_parse(r@) == Some(data@),
        r@.len() == ((data@.len() + 2) / 3) * 4,
{
    base64::engine::general_purpose::STANDARD.encode(data)
}

/// Relies on base64's `general_purpose::STANDARD` engine: decoding is a
/// function of the input text alone, and fails exactly on text that is not
/// valid standard base64.
#[verifier::external_body]
pub(crate) fn b64_decode_raw(text: &str) -> (r: Option<Vec<u8>>)
    ensures
        match r {
            Some(v) => b64_parse(text@) == Some(v@),
            None => b64_parse(text@) is None,
        },
{
    base64::engine::general_purpose::STANDARD.decode(text).ok()
}

} // verus!
