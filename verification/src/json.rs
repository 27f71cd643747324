//! Trusted boundary to the JSON library.
//!
//! The wire protocol carries one JSON document per line.  Parsing and field
//! access are done by `serde_json`; each call is wrapped here with a contract
//! over uninterpreted names, so that everything the dispatcher decides from a
//! document is verified against those names.  `serde_json::Value` stays
//! opaque: the names `json_of`, `obj_field`, `json_str`, `json_u64` and
//! `json_bool` stand for the parse result and for what a value holds, all of
//! them functions of their arguments alone.

use vstd::prelude::*;

verus! {

#[verifier::external_type_specification]
#[verifier::external_body]
pub struct ExValue(serde_json::Value);

/// The document a line of text parses to, if it is well-formed JSON.
pub uninterp spec fn json_of(s: Seq<char>) -> Option<serde_json::Value>;

/// The member a JSON value holds under a key, if the value is an object
/// with that member.
pub uninterp spec fn obj_field(v: serde_json::Value, key: Seq<char>) -> Option<serde_json::Value>;

/// The characters a JSON value holds, if it is a string.
pub uninterp spec fn json_str(v: serde_json::Value) -> Option<Seq<char>>;

/// The number a JSON value holds, if it is an unsigned integer in range.
pub uninterp spec fn json_u64(v: serde_json::Value) -> Option<u64>;

/// Relies on `serde_json::from_str::<Value>`: whether a text parses, and to
/// which document, depends on the text alone.
#[verifier::external_body]
pub fn parse_json(s: &str) -> (r: Option<serde_json::Value>)
    ensures
        r == json_of(s@),
{
    serde_json::from_str(s).ok()
}

/// Relies on `serde_json::Value::get`: the member of a JSON object under a
/// string key, `None` for non-objects and missing keys.
#[verifier::external_body]
pub fn json_get<'a>(v: &'a serde_json::Value, key: &str) -> (r: Option<&'a serde_json::Value>)
    ensures
        match r {
            Some(f) => obj_field(*v, key@) == Some(*f),
            None => obj_field(*v, key@) is None,
        },
{
    v.get(key)
}

/// Relies on `serde_json::Value::as_str`: the payload of a JSON string,
/// `None` for every other kind of value.
#[verifier::external_body]
pub fn json_as_str(v: &serde_json::Value) -> (r: Option<String>)
    ensures
        match r {
            Some(s) => json_str(*v) == Some(s@),
            None => json_str(*v) is None,
        },
{
    v.as_str().map(|s| s.to_owned())
}

/// Relies on `serde_json::Value::as_u64`: the payload of a JSON unsigned
/// integer, `None` for every other kind of value.
#[verifier::external_body]
pub fn json_as_u64(v: &serde_json::Value) -> (r: Option<u64>)
    ensures
        r == json_u64(*v),
{
    v.as_u64()
}

} // verus!
