//! The JSON and form codec boundary.
//!
//! JSON values are carried opaquely as `serde_json::Value`; this module
//! declares that type and wraps the few codec calls the library relies on.
//! What a decode result depends on is named at the specification level
//! (`json_well_formed`, `form_encoded`) so that callers' contracts can
//! speak about it exactly.

use vstd::prelude::*;

verus! {

#[verifier::external_type_specification]
#[verifier::external_body]
pub struct ExJsonValue(serde_json::Value);

/// Whether a byte sequence is a well-formed JSON document, as
/// `serde_json::from_slice` decides it.
pub uninterp spec fn json_well_formed(bytes: Seq<u8>) -> bool;

/// The `application/x-www-form-urlencoded` rendering of key-value pairs,
/// as `serde_urlencoded::to_string` produces it.
pub uninterp spec fn form_encoded(pairs: Seq<(Seq<char>, Seq<char>)>) -> Seq<char>;

/// Relies on serde_json::from_slice: parsing succeeds exactly on
/// well-formed JSON bytes, and the result depends on the bytes alone.
#[verifier::external_body]
pub fn json_from_slice(bytes: &[u8]) -> (r: Option<serde_json::Value>)
    ensures
        r is Some <==> json_well_formed(bytes@),
{
    serde_json::from_slice::<serde_json::Value>(bytes).ok()
}

/// Relies on serde_json::to_vec: the JSON rendering of the value, or the
/// serializer's error rendered as text.
#[verifier::external_body]
pub fn json_to_vec(value: &serde_json::Value) -> (r: Result<Vec<u8>, String>)
{
    serde_json::to_vec(value).map_err(|e| e.to_string())
}

/// Relies on serde_urlencoded::to_string: the form-urlencoded rendering of
/// the pairs, which depends on the pairs alone, or the serializer's error
/// rendered as text.
#[verifier::external_body]
pub fn urlencode_pairs(pairs: &Vec<(String, String)>) -> (r: Result<String, String>)
    ensures
        r matches Ok(s) ==> s@ == form_encoded(pairs.deep_view()),
{
    serde_urlencoded::to_string(pairs.as_slice()).map_err(|e| e.to_string())
}

/// Relies on std::str::from_utf8: succeeds exactly on valid UTF-8 and
/// returns the decoded characters.
#[verifier::external_body]
pub fn try_str_from_utf8(bytes: &[u8]) -> (r: Option<&str>)
    ensures
        r is Some <==> vstd::utf8::valid_utf8(bytes@),
        r matches Some(s) ==> s@ == vstd::utf8::decode_utf8(bytes@),
{
    std::str::from_utf8(bytes).ok()
}

} // verus!
