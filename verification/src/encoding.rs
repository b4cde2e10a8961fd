//! Decoding of the picture paths that the store keeps as base64 text.

use vstd::prelude::*;

verus! {

/// The bytes that base64's standard engine decodes `text` to; `None` where it
/// refuses the text.
pub uninterp spec fn base64_decoded(text: Seq<char>) -> Option<Seq<u8>>;

/// The text that `String::from_utf8` makes of `bytes`; `None` where they are
/// no UTF-8.
pub uninterp spec fn utf8_text(bytes: Seq<u8>) -> Option<Seq<char>>;

/// The relative path that a stored text stands for: its base64 decoded, and
/// the bytes read as UTF-8. `None` where either step fails.
pub open spec fn decoded_path(text: Seq<char>) -> Option<Seq<char>> {
    match base64_decoded(text) {
        Some(bytes) => utf8_text(bytes),
        None => None,
    }
}

/// Decodes a stored picture path.
pub fn decode_path(text: &str) -> (r: Option<String>)
    ensures
        r is Some <==> decoded_path(text@) is Some,
        r matches Some(p) ==> decoded_path(text@) == Some(p@),
{
    match decode_base64(text) {
        Some(bytes) => text_of(bytes),
        None => None,
    }
}

/// Calls `decode` of `base64::engine::general_purpose::STANDARD`. The
/// contract only names the result.
#[verifier::external_body]
fn decode_base64(text: &str) -> (r: Option<Vec<u8>>)
    ensures
        r is Some <==> base64_decoded(text@) is Some,
        r matches Some(bytes) ==> base64_decoded(text@) == Some(bytes@),
{
    base64::Engine::decode(&base64::engine::general_purpose::STANDARD, text).ok()
}

/// Calls `String::from_utf8`. The contract only names the result.
#[verifier::external_body]
fn text_of(bytes: Vec<u8>) -> (r: Option<String>)
    ensures
        r is Some <==> utf8_text(bytes@) is Some,
        r matches Some(s) ==> utf8_text(bytes@) == Some(s@),
{
    String::from_utf8(bytes).ok()
}

} // verus!
