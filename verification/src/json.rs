//! Reading and writing JSON through `serde_json`.
//!
//! A parsed document is a `serde_json::Value`, which the verifier cannot look
//! into. What the decoder reads from one is named here: the members of an
//! object, the text of a string, the value of a number, the items of an
//! array. Each name is tied to the one accessor of `serde_json` that returns
//! it.

use vstd::prelude::*;

verus! {

#[verifier::external_type_specification]
#[verifier::external_body]
pub struct ExValue(serde_json::Value);

/// The document that a text parses to, where it is one JSON document.
pub uninterp spec fn json_parsed(text: Seq<char>) -> Option<serde_json::Value>;

/// The members of a JSON object, by key; empty for any other value.
pub uninterp spec fn json_members(v: serde_json::Value) -> Map<Seq<char>, serde_json::Value>;

/// The text of a JSON string; `None` for any other value.
pub uninterp spec fn json_string(v: serde_json::Value) -> Option<Seq<char>>;

/// The value of a JSON number that is an integer in the range of `u64`;
/// `None` for any other value.
pub uninterp spec fn json_u64(v: serde_json::Value) -> Option<u64>;

/// The items of a JSON array, in order; `None` for any other value.
pub uninterp spec fn json_items(v: serde_json::Value) -> Option<Seq<serde_json::Value>>;

/// The JSON string literal for a text: quoted, with escapes.
pub uninterp spec fn json_string_text(s: Seq<char>) -> Seq<char>;

/// Calls `serde_json::from_str` for a `serde_json::Value`. The contract
/// claims that the call succeeds exactly on a text that is one JSON document,
/// and that the same text gives the same document.
#[verifier::external_body]
pub(crate) fn parse(text: &str) -> (r: Option<serde_json::Value>)
    ensures
        r == json_parsed(text@),
{
    serde_json::from_str::<serde_json::Value>(text).ok()
}

/// Calls `serde_json::Value::get` with a string key. The contract claims that
/// it returns the member under that key where the value is an object that has
/// one, and `None` otherwise.
#[verifier::external_body]
pub(crate) fn member<'a>(v: &'a serde_json::Value, key: &str) -> (r: Option<&'a serde_json::Value>)
    ensures
        match r {
            Some(m) => json_members(*v).contains_key(key@) && json_members(*v)[key@] == *m,
            None => !json_members(*v).contains_key(key@),
        },
{
    v.get(key)
}

/// Calls `serde_json::Value::as_str`. The contract claims that it returns
/// the text of a string value and `None` for any other.
#[verifier::external_body]
pub(crate) fn as_str<'a>(v: &'a serde_json::Value) -> (r: Option<&'a str>)
    ensures
        match r {
            Some(s) => json_string(*v) == Some(s@),
            None => json_string(*v).is_none(),
        },
{
    v.as_str()
}

/// Calls `serde_json::Value::as_u64`. The contract claims that it returns
/// the number where the value is an integer in the range of `u64`, and
/// `None` otherwise.
#[verifier::external_body]
pub(crate) fn as_u64(v: &serde_json::Value) -> (r: Option<u64>)
    ensures
        r == json_u64(*v),
{
    v.as_u64()
}

/// Calls `serde_json::Value::as_array`. The contract claims that it returns
/// the items of an array value, in order, and `None` for any other.
#[verifier::external_body]
pub(crate) fn as_array<'a>(v: &'a serde_json::Value) -> (r: Option<&'a Vec<serde_json::Value>>)
    ensures
        match r {
            Some(items) => json_items(*v) == Some(items@),
            None => json_items(*v).is_none(),
        },
{
    v.as_array()
}

/// Calls `serde_json::to_string` on a string slice. The contract claims that
/// the call succeeds (a string slice has no way to fail, and the writer is a
/// buffer in memory) and returns the JSON string literal for the text.
#[verifier::external_body]
pub(crate) fn quote(s: &str) -> (r: Option<String>)
    ensures
        r is Some,
        r->Some_0@ == json_string_text(s@),
{
    serde_json::to_string(s).ok()
}

/// The string under `key` in an object, where there is one.
pub open spec fn string_member(v: serde_json::Value, key: Seq<char>) -> Option<Seq<char>> {
    if json_members(v).contains_key(key) {
        json_string(json_members(v)[key])
    } else {
        None
    }
}

/// The `u64` under `key` in an object, where there is one.
pub open spec fn u64_member(v: serde_json::Value, key: Seq<char>) -> Option<u64> {
    if json_members(v).contains_key(key) {
        json_u64(json_members(v)[key])
    } else {
        None
    }
}

/// Whether an object has a member under `key`.
pub open spec fn has_member(v: serde_json::Value, key: Seq<char>) -> bool {
    json_members(v).contains_key(key)
}

/// Reads the string under `key`.
pub fn get_string(v: &serde_json::Value, key: &str) -> (r: Option<String>)
    ensures
        match r {
            Some(s) => string_member(*v, key@) == Some(s@),
            None => string_member(*v, key@).is_none(),
        },
{
    match member(v, key) {
        Some(m) => match as_str(m) {
            Some(s) => Some(s.to_owned()),
            None => None,
        },
        None => None,
    }
}

/// Reads the `u64` under `key`.
pub fn get_u64(v: &serde_json::Value, key: &str) -> (r: Option<u64>)
    ensures
        r == u64_member(*v, key@),
{
    match member(v, key) {
        Some(m) => as_u64(m),
        None => None,
    }
}

/// Tells whether there is a member under `key`.
pub fn has(v: &serde_json::Value, key: &str) -> (r: bool)
    ensures
        r == has_member(*v, key@),
{
    member(v, key).is_some()
}

} // verus!
