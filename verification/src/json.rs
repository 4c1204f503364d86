//! A plain representation of a JSON document, and a trusted parser built on
//! `serde_json`. The tree holds only values the rest of the library can
//! reason about; everything that reads the tree is verified against it.

use vstd::prelude::*;

verus! {

/// A parsed JSON value.
///
/// A number that is not an unsigned 64-bit integer (negative, fractional or
/// out of range) is kept as `OtherNumber`: no field of the token service's
/// responses may hold such a number, so the decoders reject it like any other
/// value of the wrong type.
#[derive(Debug)]
pub enum JsonValue {
    Null,
    Bool(bool),
    UInt(u64),
    OtherNumber,
    Str(String),
    Arr(Vec<JsonValue>),
    Obj(Vec<(String, JsonValue)>),
}

/// What `parse_json` returns for a given body: `None` when the body is not
/// well-formed JSON, otherwise the parsed tree. The result is a function of
/// the text alone; nothing further is assumed about it.
pub uninterp spec fn spec_parse_json(s: Seq<char>) -> Option<JsonValue>;

#[verifier::external_type_specification]
#[verifier::external_body]
pub struct ExJsonValue(serde_json::Value);

/// Relies on `serde_json::from_str::<serde_json::Value>`: parsing is a
/// deterministic function of the input text alone, and the entries of a
/// `serde_json::Map` come out in a deterministic (key-sorted) order, so the
/// rebuilt tree is as well.
#[verifier::external_body]
pub fn parse_json(body: &str) -> (r: Option<JsonValue>)
    ensures
        r == spec_parse_json(body@),
{
    match serde_json::from_str::<serde_json::Value>(body) {
        Ok(v) => Some(json_value_of(&v)),
        Err(_) => None,
    }
}

/// Rebuilds a `serde_json::Value` tree as a `JsonValue`, one variant for one
/// variant; used only by `parse_json`, whose contract covers the composition.
#[verifier::external_body]
fn json_value_of(v: &serde_json::Value) -> JsonValue {
    match v {
        serde_json::Value::Null => JsonValue::Null,
        serde_json::Value::Bool(b) => JsonValue::Bool(*b),
        serde_json::Value::Number(n) => match n.as_u64() {
            Some(u) => JsonValue::UInt(u),
            None => JsonValue::OtherNumber,
        },
        serde_json::Value::String(s) => JsonValue::Str(s.clone()),
        serde_json::Value::Array(items) => JsonValue::Arr(items.iter().map(json_value_of).collect()),
        serde_json::Value::Object(entries) => JsonValue::Obj(
            entries.iter().map(|(k, w)| (k.clone(), json_value_of(w))).collect(),
        ),
    }
}

} // verus!
