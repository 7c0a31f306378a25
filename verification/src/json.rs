//! Whether a byte string is a JSON document.
use vstd::prelude::*;
use vstd::utf8::*;

verus! {

/// Whether the text parses as one JSON value.
pub uninterp spec fn json_parses(text: Seq<char>) -> bool;

/// Whether UTF-8 bytes hold a JSON document.
pub open spec fn is_json_document(bytes: Seq<u8>) -> bool {
    json_parses(decode_utf8(bytes))
}

/// `std::str::from_utf8`: the text of the bytes when they are valid UTF-8.
#[verifier::external_body]
fn utf8_text(bytes: &[u8]) -> (r: Option<&str>)
    ensures
        r is Some <==> valid_utf8(bytes@),
        r matches Some(s) ==> s@ == decode_utf8(bytes@),
{
    std::str::from_utf8(bytes).ok()
}

/// `serde_json::from_str::<serde_json::Value>`, asked only whether it
/// succeeds. Which texts it accepts stays unstated: the contract only names
/// the answer.
#[verifier::external_body]
fn parses_as_json(text: &str) -> (r: bool)
    ensures
        r == json_parses(text@),
{
    serde_json::from_str::<serde_json::Value>(text).is_ok()
}

/// Whether the bytes, which must be UTF-8, hold a JSON document.
pub fn json_is_valid(bytes: &Vec<u8>) -> (r: bool)
    requires
        valid_utf8(bytes@),
    ensures
        r == is_json_document(bytes@),
{
    match utf8_text(bytes.as_slice()) {
        Some(text) => parses_as_json(text),
        None => false,
    }
}

} // verus!
