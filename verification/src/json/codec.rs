use crate::json::{Json, JsonNumber, JsonObject, JsonValue};
use serde_json::Value;
use vstd::prelude::*;

verus! {

/// The document type of `serde_json`, taken as an opaque value.
#[verifier::external_type_specification]
#[verifier::external_body]
pub struct ExTree(Value);

/// The error type of `serde_json`, taken as an opaque value.
#[verifier::external_type_specification]
#[verifier::external_body]
pub struct ExDecodeError(serde_json::Error);

/// The document that `serde_json` reads from a text, and `None` for a text
/// that it refuses.
pub uninterp spec fn decoded(text: Seq<char>) -> Option<Json>;

/// The compact text that `serde_json` writes for a document.
pub uninterp spec fn encoded(value: Json) -> Seq<char>;

/// The document that a `serde_json::Value` holds.
pub uninterp spec fn tree_model(tree: Value) -> Json;

/// The compact text that `serde_json` writes for a `serde_json::Value`.
pub uninterp spec fn tree_text(tree: Value) -> Seq<char>;

/// Calls `serde_json::from_str` for a `serde_json::Value`. The contract gives
/// the outcome its name: the call succeeds exactly on the texts that
/// `decoded` accepts, and then holds the document `decoded` names.
#[verifier::external_body]
fn parse_tree(text: &str) -> (outcome: Result<Value, serde_json::Error>)
    ensures
        outcome is Ok <==> decoded(text@) is Some,
        outcome is Ok ==> decoded(text@) == Some(tree_model(outcome->Ok_0)),
{
    serde_json::from_str::<Value>(text)
}

/// Moves a `serde_json::Value` into a `JsonValue`, variant by variant. An
/// integer comes as `Unsigned` where `as_u64` gives it and as `Signed` where
/// `as_i64` does; any other number comes as the text that its `Display`
/// writes. The members of a `serde_json::Map` have distinct keys.
#[verifier::external_body]
fn lift(tree: Value) -> (value: JsonValue)
    ensures
        value@ == tree_model(tree),
{
    match tree {
        Value::Null => JsonValue::Null,
        Value::Bool(flag) => JsonValue::Bool(flag),
        Value::Number(n) => JsonValue::Number(
            n.as_u64().map(JsonNumber::Unsigned).or(n.as_i64().map(JsonNumber::Signed)).unwrap_or_else(
                || JsonNumber::Decimal(n.to_string()),
            ),
        ),
        Value::String(text) => JsonValue::Text(text),
        Value::Array(items) => JsonValue::Array(items.into_iter().map(lift).collect()),
        Value::Object(map) => JsonValue::Object(
            JsonObject { entries: map.into_iter().map(|(k, v)| (k, lift(v))).collect() },
        ),
    }
}

/// Builds the `serde_json::Value` for a `JsonValue`, variant by variant. A
/// `Decimal` is read back by `serde_json::from_str`, and is `null` where that
/// refuses its text. What the result prints as is the text that `encoded`
/// names.
#[verifier::external_body]
fn lower(value: &JsonValue) -> (tree: Value)
    ensures
        tree_text(tree) == encoded(value@),
{
    match value {
        JsonValue::Null => Value::Null,
        JsonValue::Bool(flag) => Value::Bool(*flag),
        JsonValue::Number(JsonNumber::Unsigned(n)) => Value::from(*n),
        JsonValue::Number(JsonNumber::Signed(n)) => Value::from(*n),
        JsonValue::Number(JsonNumber::Decimal(text)) => serde_json::from_str(text).unwrap_or_default(),
        JsonValue::Text(text) => Value::String(text.clone()),
        JsonValue::Array(items) => Value::Array(items.iter().map(lower).collect()),
        JsonValue::Object(object) => Value::Object(
            object.entries.iter().map(|(k, v)| (k.clone(), lower(v))).collect(),
        ),
    }
}

/// Calls `to_string` on a `serde_json::Value`, which writes compact JSON.
#[verifier::external_body]
fn print_tree(tree: &Value) -> (text: String)
    ensures
        text@ == tree_text(*tree),
{
    tree.to_string()
}

/// Calls `to_string` on a `serde_json::Error`, which writes its message.
/// Nothing is promised of the text.
#[verifier::external_body]
pub(crate) fn decode_error_text(error: &serde_json::Error) -> (text: String)
{
    error.to_string()
}

/// Reads a JSON document from `text`.
pub fn decode(text: &str) -> (outcome: Result<JsonValue, serde_json::Error>)
    ensures
        match decoded(text@) {
            Some(document) => outcome is Ok && outcome->Ok_0@ == document,
            None => outcome is Err,
        },
{
    match parse_tree(text) {
        Ok(tree) => Ok(lift(tree)),
        Err(error) => Err(error),
    }
}

/// Writes `value` as compact JSON.
pub fn encode(value: &JsonValue) -> (text: String)
    ensures
        text@ == encoded(value@),
{
    let tree = lower(value);
    print_tree(&tree)
}

} // verus!
