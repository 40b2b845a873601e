//! JSON values, which the library carries through in metadata and never reads.

use vstd::prelude::*;

verus! {

/// `serde_json::Value`, an arbitrary JSON value. The library stores and hands
/// back such values and never looks inside them.
#[verifier::external_type_specification]
#[verifier::external_body]
pub struct ExJsonValue(serde_json::Value);

/// `serde_json::Value::String`: the JSON string that holds the given text.
/// Nothing is assumed of the value.
#[verifier::external_body]
pub(crate) fn json_string(text: &str) -> (v: serde_json::Value) {
    serde_json::Value::String(text.to_string())
}

/// `serde_json::Value::as_str`: the text of a JSON string, and nothing for any
/// other value. Nothing is assumed of the result.
#[verifier::external_body]
pub(crate) fn json_as_str(value: &serde_json::Value) -> (text: Option<String>) {
    value.as_str().map(String::from)
}

/// `serde_json::Value::Null`: the JSON null. Nothing is assumed of the value.
#[verifier::external_body]
pub(crate) fn json_null() -> (v: serde_json::Value) {
    serde_json::Value::Null
}

} // verus!
