//! JSON documents as plain values.
//!
//! Parsing is `serde_json`'s work. What it reads is handed on as a [`Json`], so
//! that the rules which turn a document into an event can be stated and proved.

use vstd::prelude::*;

verus! {

#[verifier::external_type_specification]
#[verifier::external_body]
pub struct ExValue(serde_json::Value);

#[verifier::external_type_specification]
#[verifier::external_body]
pub struct ExNumber(serde_json::Number);

/// A JSON number, by the three readings that the parser offers of it.
#[derive(Clone, Copy, Debug, PartialEq, Eq)]
pub struct JsonNumber {
    /// The number, if it is an integer from zero to `u64::MAX`.
    pub unsigned: Option<u64>,
    /// The number, if it is an integer from `i64::MIN` to `i64::MAX`.
    pub signed: Option<i64>,
    /// The bits of the IEEE 754 double that stands for the number, if one does.
    pub double_bits: Option<u64>,
}

/// A JSON document.
#[derive(Debug, PartialEq, Eq)]
pub enum Json {
    Null,
    Bool(bool),
    Number(JsonNumber),
    Text(String),
    Array(Vec<Json>),
    /// The members of an object, each name with its value.
    Object(Vec<(String, Json)>),
}

/// The document that `serde_json::from_str` reads from `text`, or `None`
/// where `text` is not one JSON document.
pub uninterp spec fn parsed_json(text: Seq<char>) -> Option<Json>;

/// Moves a `serde_json::Value` into a `Json`, variant by variant. An object's
/// members come in the order in which the value holds them.
#[verifier::external_body]
fn lift(value: serde_json::Value) -> Json {
    match value {
        serde_json::Value::Null => Json::Null,
        serde_json::Value::Bool(flag) => Json::Bool(flag),
        serde_json::Value::Number(number) => Json::Number(lift_number(&number)),
        serde_json::Value::String(text) => Json::Text(text),
        serde_json::Value::Array(items) => Json::Array(items.into_iter().map(lift).collect()),
        serde_json::Value::Object(members) => Json::Object(
            members.into_iter().map(|(name, value)| (name, lift(value))).collect(),
        ),
    }
}

/// Moves a `serde_json::Number` into a `JsonNumber`: what `as_u64`, `as_i64`
/// and `as_f64` return of it.
#[verifier::external_body]
fn lift_number(number: &serde_json::Number) -> JsonNumber {
    JsonNumber {
        unsigned: number.as_u64(),
        signed: number.as_i64(),
        double_bits: number.as_f64().map(|double| double.to_bits()),
    }
}

/// `serde_json::from_str`, read as a `serde_json::Value`. The result is the
/// document that the text holds, and `None` for a text that is no document.
#[verifier::external_body]
pub(crate) fn parse_json(text: &str) -> (document: Option<Json>)
    ensures
        document == parsed_json(text@),
{
    match serde_json::from_str::<serde_json::Value>(text) {
        Ok(value) => Some(lift(value)),
        Err(_) => None,
    }
}

} // verus!
