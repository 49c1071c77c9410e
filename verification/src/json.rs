//! Trusted view of JSON decoding.
//!
//! The catalog payload is the one JSON document the pipeline reads.  It
//! is parsed with `serde_json` into its generic value type, which is
//! declared opaque here; four uninterpreted names model what parsing and
//! navigation return, so that the verified catalog code can be specified
//! as a function of the payload text.  Naming these results is sound:
//! the value type is a plain data tree (objects are ordered maps, with
//! no hasher, capacity or address entering what the accessors return),
//! so each of the four outside functions is a function of its arguments
//! alone.

use vstd::prelude::*;

verus! {

#[verifier::external_type_specification]
#[verifier::external_body]
pub struct ExJsonValue(serde_json::Value);

/// The value a JSON document parses to; `None` on malformed input.
pub uninterp spec fn json_parse_of(s: Seq<char>) -> Option<serde_json::Value>;

/// The member a JSON value holds under a key; `None` when the value is
/// not an object or has no such member.
pub uninterp spec fn json_member_of(v: serde_json::Value, key: Seq<char>) -> Option<
    serde_json::Value,
>;

/// The elements of a JSON value, when it is an array.
pub uninterp spec fn json_elements_of(v: serde_json::Value) -> Option<Seq<serde_json::Value>>;

/// The text of a JSON value, when it is a string.
pub uninterp spec fn json_text_of(v: serde_json::Value) -> Option<Seq<char>>;

/// Relies on `serde_json::from_str::<serde_json::Value>`: parses a JSON
/// document, or fails on malformed input; deterministic in the text.
#[verifier::external_body]
pub fn parse_json(s: &str) -> (r: Option<serde_json::Value>)
    ensures
        r == json_parse_of(s@),
{
    serde_json::from_str(s).ok()
}

/// Relies on `serde_json::Value::get`: member lookup by key, `None` when
/// the value is not an object or has no such member.
#[verifier::external_body]
pub fn json_get<'a>(v: &'a serde_json::Value, key: &str) -> (r: Option<&'a serde_json::Value>)
    ensures
        match r {
            Some(x) => json_member_of(*v, key@) == Some(*x),
            None => json_member_of(*v, key@) is None,
        },
{
    v.get(key)
}

/// Relies on `serde_json::Value::as_array`: the elements when the value
/// is an array, `None` otherwise.
#[verifier::external_body]
pub fn json_as_array<'a>(v: &'a serde_json::Value) -> (r: Option<&'a Vec<serde_json::Value>>)
    ensures
        match r {
            Some(a) => json_elements_of(*v) == Some(a@),
            None => json_elements_of(*v) is None,
        },
{
    v.as_array()
}

/// Relies on `serde_json::Value::as_str`: the text when the value is a
/// string, `None` otherwise.
#[verifier::external_body]
pub fn json_as_string(v: &serde_json::Value) -> (r: Option<String>)
    ensures
        match r {
            Some(s) => json_text_of(*v) == Some(s@),
            None => json_text_of(*v) is None,
        },
{
    v.as_str().map(|s| s.to_owned())
}

} // verus!
