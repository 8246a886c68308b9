//! The JSON boundary of backend output.
//!
//! The backend command emits one JSON document on standard output. The
//! dispatch core only ever asks two things of it: whether the bytes parse at
//! all, and whether a failed call left a structured `{"error": "..."}`
//! payload. Both are functions of the bytes alone; parsing itself is done by
//! serde_json and trusted.

use vstd::prelude::*;

verus! {

/// Whether a byte string parses as one JSON document.
pub uninterp spec fn json_wellformed(bytes: Seq<u8>) -> bool;

/// The `error` string field of the JSON document the bytes parse as, if the
/// bytes parse as an object carrying a string under that key; `None`
/// otherwise (also when the bytes do not parse at all).
pub uninterp spec fn json_error_field(bytes: Seq<u8>) -> Option<Seq<char>>;

/// The text a byte string decodes to, invalid UTF-8 replaced.
pub uninterp spec fn utf8_lossy_of(bytes: Seq<u8>) -> Seq<char>;

/// Relies on `serde_json::from_slice::<serde_json::Value>`: whether the bytes
/// parse as a JSON document depends on the bytes alone.
#[verifier::external_body]
pub fn json_parses(bytes: &[u8]) -> (r: bool)
    ensures
        r == json_wellformed(bytes@),
{
    serde_json::from_slice::<serde_json::Value>(bytes).is_ok()
}

/// Relies on `serde_json::from_slice`, `serde_json::Value::get` and
/// `serde_json::Value::as_str`: the `error` string field of the document the
/// bytes parse as, a function of the bytes alone.
#[verifier::external_body]
pub fn json_error_message(bytes: &[u8]) -> (r: Option<String>)
    ensures
        match r {
            Some(m) => json_error_field(bytes@) == Some(m@),
            None => json_error_field(bytes@) == Option::<Seq<char>>::None,
        },
{
    match serde_json::from_slice::<serde_json::Value>(bytes) {
        Ok(doc) => match doc.get("error").and_then(|e| e.as_str()) {
            Some(m) => Some(m.to_owned()),
            None => None,
        },
        Err(_) => None,
    }
}

/// Relies on `String::from_utf8_lossy`: the decoded text depends on the
/// bytes alone.
#[verifier::external_body]
pub fn utf8_lossy(bytes: &[u8]) -> (r: String)
    ensures
        r@ == utf8_lossy_of(bytes@),
{
    String::from_utf8_lossy(bytes).into_owned()
}

} // verus!
