//! Trusted boundary to the JSON library used for the external tools'
//! structured reports.  A parsed document is opaque here: the accessors
//! below carry values out of it, and everything this crate computes from
//! those values is verified.  Whether a text parses at all is named by
//! [`spec_json_ok`], a function of the text alone.

use vstd::prelude::*;

verus! {

#[verifier::external_type_specification]
#[verifier::external_body]
pub struct ExValue(serde_json::Value);

/// Whether `serde_json::from_str` accepts `s` as a JSON document; a
/// function of the text alone.
pub uninterp spec fn spec_json_ok(s: Seq<char>) -> bool;

/// Relies on serde_json::from_str: parsing is deterministic in its input,
/// so succeeding is a function of the text alone.
#[verifier::external_body]
pub fn json_parse(s: &str) -> (r: Option<serde_json::Value>)
    ensures
        r is Some <==> spec_json_ok(s@),
{
    serde_json::from_str::<serde_json::Value>(s).ok()
}

/// Relies on serde_json::Value::get: looks up a key of a JSON object;
/// nothing further can be stated of the opaque document.
#[verifier::external_body]
pub fn json_get<'a>(v: &'a serde_json::Value, key: &str) -> Option<&'a serde_json::Value> {
    v.get(key)
}

/// Relies on serde_json::Value::as_str: the string content of a JSON
/// string value, if it is one.
#[verifier::external_body]
pub fn json_as_str<'a>(v: &'a serde_json::Value) -> Option<&'a str> {
    v.as_str()
}

/// Relies on serde_json::Value::as_u64: the value of a JSON number that
/// fits an unsigned 64-bit integer, if it is one.
#[verifier::external_body]
pub fn json_as_u64(v: &serde_json::Value) -> Option<u64> {
    v.as_u64()
}

/// Relies on serde_json::Value::as_array: the elements of a JSON array
/// value, if it is one.
#[verifier::external_body]
pub fn json_as_array<'a>(v: &'a serde_json::Value) -> Option<&'a Vec<serde_json::Value>> {
    v.as_array()
}

} // verus!
