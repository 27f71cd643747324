//! Token usage counters carried by the wire protocol.

use vstd::prelude::*;

use crate::json::{json_as_u64, json_get, json_u64, obj_field};

verus! {

/// Token usage statistics as a message reports them; a counter the message
/// does not carry is `None`.
#[derive(Debug, Clone, Copy, PartialEq)]
pub struct TokenUsage {
    pub input_tokens: Option<u64>,
    pub output_tokens: Option<u64>,
    pub cache_creation_input_tokens: Option<u64>,
    pub cache_read_input_tokens: Option<u64>,
}

/// A counter, with zero standing in for an absent one.
pub open spec fn or_zero(o: Option<u64>) -> u64 {
    match o {
        Some(n) => n,
        None => 0,
    }
}

/// The number under `key` of a JSON object, if the member exists and is an
/// unsigned integer.
pub open spec fn field_u64(v: serde_json::Value, key: Seq<char>) -> Option<u64> {
    match obj_field(v, key) {
        Some(f) => json_u64(f),
        None => None,
    }
}

/// The usage counters a JSON usage object carries.
pub open spec fn spec_usage_of(v: serde_json::Value) -> TokenUsage {
    TokenUsage {
        input_tokens: field_u64(v, "input_tokens"@),
        output_tokens: field_u64(v, "output_tokens"@),
        cache_creation_input_tokens: field_u64(v, "cache_creation_input_tokens"@),
        cache_read_input_tokens: field_u64(v, "cache_read_input_tokens"@),
    }
}

fn get_u64(v: &serde_json::Value, key: &str) -> (r: Option<u64>)
    ensures
        r == field_u64(*v, key@),
{
    match json_get(v, key) {
        Some(f) => json_as_u64(f),
        None => None,
    }
}

impl TokenUsage {
    /// Read the four counters out of a JSON usage object.
    pub fn from_json(v: &serde_json::Value) -> (r: TokenUsage)
        ensures
            r == spec_usage_of(*v),
    {
        TokenUsage {
            input_tokens: get_u64(v, "input_tokens"),
            output_tokens: get_u64(v, "output_tokens"),
            cache_creation_input_tokens: get_u64(v, "cache_creation_input_tokens"),
            cache_read_input_tokens: get_u64(v, "cache_read_input_tokens"),
        }
    }
}

} // verus!
