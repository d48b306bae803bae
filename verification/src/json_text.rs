//! JSON values as text.

use crate::json::{Json, JsonModel};
use serde_json::{Number, Value};
use vstd::prelude::*;

verus! {

/// `serde_json::Value`, a JSON value of serde_json.
#[verifier::external_type_specification]
#[verifier::external_body]
pub struct ExValue(serde_json::Value);

/// The text that serde_json writes for one of its own values.
pub uninterp spec fn value_text(value: Value) -> Seq<char>;

/// The text that serde_json writes for the value with the given model.
pub uninterp spec fn text_of(model: JsonModel) -> Seq<char>;

/// The variants of `serde_json::Value`: the value in serde_json's own form,
/// part for part. What serde_json writes for it depends on the model of the
/// value alone. Nothing more is said of that text.
#[verifier::external_body]
fn to_value(json: &Json) -> (r: Value)
    ensures
        value_text(r) == text_of(json@),
{
    match json {
        Json::Null => Value::Null,
        Json::Bool(b) => Value::from(*b),
        Json::PosInt(n) => Value::from(*n),
        Json::NegInt(n) => Value::from(*n),
        Json::Float(t) => t.parse().ok().and_then(Number::from_f64).map_or(Value::Null, Value::from),
        Json::Str(s) => Value::from(s.as_str()),
        Json::Array(v) => v.iter().map(to_value).collect(),
        Json::Object(m) => m.iter().map(|(k, v)| (k.clone(), to_value(v))).collect(),
    }
}

/// `ToString::to_string` of a `serde_json::Value`: its compact JSON text.
#[verifier::external_body]
fn write_value(value: &Value) -> (r: String)
    ensures
        r@ == value_text(*value),
{
    value.to_string()
}

/// The value as compact JSON text.
pub fn json_text(json: &Json) -> (r: String)
    ensures
        r@ == text_of(json@),
{
    let value: Value = to_value(json);
    write_value(&value)
}

} // verus!
