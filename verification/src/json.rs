//! Configuration documents as trees of plain values.

use vstd::prelude::*;

verus! {

/// A document: a value of the JSON data model. Of a number only what an
/// `i64` holds is kept; any other number is `Number(None)`.
#[derive(Debug, PartialEq, Eq)]
pub enum JsonValue {
    Null,
    Bool(bool),
    Number(Option<i64>),
    Text(String),
    List(Vec<JsonValue>),
    /// The members of an object, each with its key.
    Object(Vec<(String, JsonValue)>),
}

/// The value type of `serde_json`.
#[verifier::external_type_specification]
#[verifier::external_body]
pub struct ExValue(serde_json::Value);

/// What `serde_json::from_str` makes of a text: the document that the text
/// denotes, or the message of the error where it denotes none.
pub uninterp spec fn parsed_json(text: Seq<char>) -> Result<JsonValue, String>;

/// Copies a `serde_json::Value` into a [`JsonValue`], variant by variant. A
/// number goes through `serde_json::Number::as_i64`; the members of an
/// object come in the order in which `serde_json::Map::iter` hands them out.
#[verifier::external_body]
fn json_value_of(value: &serde_json::Value) -> JsonValue {
    match value {
        serde_json::Value::Null => JsonValue::Null,
        serde_json::Value::Bool(b) => JsonValue::Bool(*b),
        serde_json::Value::Number(n) => JsonValue::Number(n.as_i64()),
        serde_json::Value::String(s) => JsonValue::Text(s.clone()),
        serde_json::Value::Array(items) => JsonValue::List(items.iter().map(json_value_of).collect()),
        serde_json::Value::Object(members) => JsonValue::Object(
            members.iter().map(|(k, v)| (k.clone(), json_value_of(v))).collect(),
        ),
    }
}

/// `serde_json::from_str` at `serde_json::Value`: reads `text` as one JSON
/// document. The result depends on the text alone.
#[verifier::external_body]
fn parse_json(text: &str) -> (r: Result<JsonValue, String>)
    ensures
        r == parsed_json(text@),
{
    match serde_json::from_str::<serde_json::Value>(text) {
        Ok(value) => Ok(json_value_of(&value)),
        Err(e) => Err(e.to_string()),
    }
}

/// Reads `text` as one JSON document: the document, or the message of the
/// syntax error.
pub fn parse(text: &str) -> (r: Result<JsonValue, String>)
    ensures
        r == parsed_json(text@),
{
    parse_json(text)
}

} // verus!
