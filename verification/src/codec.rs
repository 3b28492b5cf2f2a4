//! The boundary to the JSON library.
//!
//! Encoding and decoding JSON text is delegated to `serde_json`; the two
//! names below stand for what its parser and its printer return, and the
//! rest of the crate reasons over them. The conversions between
//! `serde_json::Value` and the crate's own model move each variant across
//! one for one (a number crosses as its literal text).

use vstd::prelude::*;

use crate::json::JsonValue;

verus! {

#[verifier::external_type_specification]
#[verifier::external_body]
pub struct ExValue(serde_json::Value);

/// What `serde_json::from_str::<serde_json::Value>` returns on `text`,
/// carried into the crate's own model: the parsed document, or nothing
/// where `text` is not valid JSON. The result depends on the text alone.
pub uninterp spec fn json_parse(text: Seq<char>) -> Option<JsonValue>;

/// What `serde_json`'s printer returns on a document: its JSON text.
/// The result depends on the document alone.
pub uninterp spec fn json_text(v: JsonValue) -> Seq<char>;

/// Relies on `serde_json::Value`'s conversion traits only through the
/// variants' own fields: each variant of the parsed value moves across
/// unchanged, a number as its literal text.
#[verifier::external_body]
fn json_of_value(v: &serde_json::Value) -> JsonValue {
    match v {
        serde_json::Value::Null => JsonValue::Null,
        serde_json::Value::Bool(b) => JsonValue::Bool(*b),
        serde_json::Value::Number(n) => JsonValue::Number(n.to_string()),
        serde_json::Value::String(s) => JsonValue::Text(s.clone()),
        serde_json::Value::Array(a) => JsonValue::Array(
            a.iter().map(|x| json_of_value(x)).collect(),
        ),
        serde_json::Value::Object(o) => JsonValue::Object(
            o.iter().map(|p| (p.0.clone(), json_of_value(p.1))).collect(),
        ),
    }
}

/// The inverse of `json_of_value`: each variant moves across one for one;
/// a number is rebuilt from its literal text (an unreadable literal, which
/// no parsed document holds, becomes `null`).
#[verifier::external_body]
fn value_of_json(v: &JsonValue) -> serde_json::Value {
    match v {
        JsonValue::Null => serde_json::Value::Null,
        JsonValue::Bool(b) => serde_json::Value::Bool(*b),
        JsonValue::Number(s) => match s.parse::<serde_json::Number>() {
            Ok(n) => serde_json::Value::Number(n),
            Err(_) => serde_json::Value::Null,
        },
        JsonValue::Text(s) => serde_json::Value::String(s.clone()),
        JsonValue::Array(a) => serde_json::Value::Array(
            a.iter().map(|x| value_of_json(x)).collect(),
        ),
        JsonValue::Object(o) => serde_json::Value::Object(
            o.iter().map(|p| (p.0.clone(), value_of_json(&p.1))).collect(),
        ),
    }
}

/// Relies on `serde_json::from_str::<serde_json::Value>`: decodes JSON
/// text, or fails exactly where the text is not valid JSON.
#[verifier::external_body]
pub(crate) fn parse_json(text: &str) -> (r: Option<JsonValue>)
    ensures
        r == json_parse(text@),
{
    match serde_json::from_str::<serde_json::Value>(text) {
        Ok(v) => Some(json_of_value(&v)),
        Err(_) => None,
    }
}

/// Relies on `serde_json::Value`'s printer (its `Display`): encodes a
/// document as JSON text.
#[verifier::external_body]
fn to_json_text(v: &JsonValue) -> (r: String)
    ensures
        r@ == json_text(*v),
{
    value_of_json(v).to_string()
}

/// The JSON text of a document.
pub fn render_json(v: &JsonValue) -> (r: String)
    ensures
        r@ == json_text(*v),
{
    to_json_text(v)
}

} // verus!
