//! The static level as the spawn pools read it.

use crate::messages::LevelObject;
use serde_json::Value;
use vstd::prelude::*;

verus! {

/// The member that a JSON value holds under `key`, if it is an object and holds one there.
pub uninterp spec fn json_member(v: &Value, key: Seq<char>) -> Option<Value>;

/// The characters of a JSON value, if it is a string.
pub uninterp spec fn json_text(v: &Value) -> Option<Seq<char>>;

/// The number that a JSON value is, if it is a whole number that is not negative and fits
/// in 64 bits.
pub uninterp spec fn json_number(v: &Value) -> Option<u64>;

/// `Value::get` with a string index: a copy of the member under `key`.
#[verifier::external_body]
fn member(v: &Value, key: &str) -> (r: Option<Value>)
    ensures
        r == json_member(v, key@),
{
    v.get(key).cloned()
}

/// `Value::as_str`: the string that the value is.
#[verifier::external_body]
fn text(v: &Value) -> (r: Option<String>)
    ensures
        r is Some <==> json_text(v) is Some,
        r is Some ==> r->0@ == json_text(v)->0,
{
    v.as_str().map(|s| s.to_string())
}

/// `Value::as_u64`: the unsigned number that the value is.
#[verifier::external_body]
fn number(v: &Value) -> (r: Option<u64>)
    ensures
        r == json_number(v),
{
    v.as_u64()
}

/// The text under `key` in `properties`, if there is one.
pub open spec fn text_property(properties: &Value, key: Seq<char>) -> Option<Seq<char>> {
    match json_member(properties, key) {
        Some(m) => json_text(&m),
        None => None,
    }
}

/// The number under `key` in `properties`, if there is one.
pub open spec fn number_property(properties: &Value, key: Seq<char>) -> Option<u64> {
    match json_member(properties, key) {
        Some(m) => json_number(&m),
        None => None,
    }
}

/// The text under `key` in `properties`, if there is one.
pub fn property_text(properties: &Value, key: &str) -> (r: Option<String>)
    ensures
        r is Some <==> text_property(properties, key@) is Some,
        r is Some ==> r->0@ == text_property(properties, key@)->0,
{
    match member(properties, key) {
        Some(m) => text(&m),
        None => None,
    }
}

/// The number under `key` in `properties`, if there is one.
pub fn property_number(properties: &Value, key: &str) -> (r: Option<u64>)
    ensures
        r == number_property(properties, key@),
{
    match member(properties, key) {
        Some(m) => number(&m),
        None => None,
    }
}

/// The static level: the objects that every client is shown on joining.
pub struct Level {
    pub objects: Vec<LevelObject>,
}

} // verus!
