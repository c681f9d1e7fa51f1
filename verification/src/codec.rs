//! Byte decodings that the VMess link logic goes through.
use vstd::prelude::*;
use vstd::utf8::{decode_utf8, valid_utf8};
use base64::Engine;

verus! {

/// What `base64::engine::general_purpose::STANDARD.decode` makes of the bytes
/// of a text: the decoded bytes, or the text of its `DecodeError`.
pub uninterp spec fn base64_standard(input: Seq<char>) -> Result<Seq<u8>, Seq<char>>;

/// What `base64::engine::general_purpose::URL_SAFE.decode` makes of the bytes
/// of a text: the decoded bytes, or the text of its `DecodeError`.
pub uninterp spec fn base64_url_safe(input: Seq<char>) -> Result<Seq<u8>, Seq<char>>;

/// `STANDARD.decode(input)` of the `base64` crate. The contract says only that
/// the outcome is `base64_standard(input)`; the alphabet and padding rules are
/// the crate's.
#[verifier::external_body]
pub(crate) fn decode_base64_standard(input: &str) -> (r: Result<Vec<u8>, String>)
    ensures
        match r {
            Ok(b) => base64_standard(input@) == Ok::<Seq<u8>, Seq<char>>(b@),
            Err(e) => base64_standard(input@) == Err::<Seq<u8>, Seq<char>>(e@),
        },
{
    base64::engine::general_purpose::STANDARD.decode(input).map_err(|e| e.to_string())
}

/// `URL_SAFE.decode(input)` of the `base64` crate. The contract says only that
/// the outcome is `base64_url_safe(input)`; the alphabet and padding rules are
/// the crate's.
#[verifier::external_body]
pub(crate) fn decode_base64_url_safe(input: &str) -> (r: Result<Vec<u8>, String>)
    ensures
        match r {
            Ok(b) => base64_url_safe(input@) == Ok::<Seq<u8>, Seq<char>>(b@),
            Err(e) => base64_url_safe(input@) == Err::<Seq<u8>, Seq<char>>(e@),
        },
{
    base64::engine::general_purpose::URL_SAFE.decode(input).map_err(|e| e.to_string())
}

/// The text of the `FromUtf8Error` that `String::from_utf8` reports for bytes.
pub uninterp spec fn utf8_error_text(bytes: Seq<u8>) -> Seq<char>;

/// `String::from_utf8`: succeeds exactly on valid UTF-8, with the decoded
/// characters; on other bytes the error's text is named, not stated.
#[verifier::external_body]
pub(crate) fn string_from_utf8(bytes: Vec<u8>) -> (r: Result<String, String>)
    ensures
        match r {
            Ok(s) => valid_utf8(bytes@) && s@ == decode_utf8(bytes@),
            Err(e) => !valid_utf8(bytes@) && e@ == utf8_error_text(bytes@),
        },
{
    String::from_utf8(bytes).map_err(|e| e.to_string())
}

} // verus!
