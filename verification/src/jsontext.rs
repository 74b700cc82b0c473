//! JSON text: reading it and writing it, both done by serde_json.
use vstd::prelude::*;
use crate::json::{JsonValue, JsonV, json_wf};
use crate::ticket::opt_json;
use serde_json::{Number, Value};

verus! {

/// A JSON document as serde_json holds it.
#[verifier::external_type_specification]
#[verifier::external_body]
pub struct ExSerdeJsonValue(serde_json::Value);

/// A JSON number as serde_json holds it.
#[verifier::external_type_specification]
#[verifier::external_body]
pub struct ExSerdeJsonNumber(serde_json::Number);

/// The value serde_json reads from a text (`serde_json::from_str::<Value>`),
/// or `None` where it refuses the text.
pub uninterp spec fn parsed_json(s: Seq<char>) -> Option<JsonV>;

/// The compact text serde_json writes for a value (`serde_json::to_string`).
pub uninterp spec fn compact_json(v: JsonV) -> Seq<char>;

/// Turns one of serde_json's numbers into the library's value. serde_json
/// holds a number as a `u64`, an `i64` (negative) or an `f64`; `as_u64` and
/// `as_i64` tell these apart, and a float is kept by serde_json's rendering.
#[verifier::external_body]
fn from_serde_number(n: &Number) -> JsonValue {
    match (n.as_u64(), n.as_i64()) {
        (Some(u), _) => JsonValue::PosInt(u),
        (None, Some(i)) => JsonValue::NegInt(i),
        (None, None) => JsonValue::Float(n.to_string()),
    }
}

/// Turns serde_json's value into the library's, variant for variant.
#[verifier::external_body]
fn from_serde(v: &Value) -> JsonValue {
    match v {
        Value::Null => JsonValue::Null,
        Value::Bool(b) => JsonValue::Bool(*b),
        Value::Number(n) => from_serde_number(n),
        Value::String(s) => JsonValue::Str(s.clone()),
        Value::Array(xs) => JsonValue::Array(xs.iter().map(from_serde).collect()),
        Value::Object(m) => JsonValue::Object(m.iter().map(|(k, x)| (k.clone(), from_serde(x))).collect()),
    }
}

/// Turns the library's value into serde_json's, variant for variant; a float
/// is read back from its rendering as JSON text, `null` if that fails.
#[verifier::external_body]
fn to_serde(v: &JsonValue) -> Value {
    match v {
        JsonValue::Null => Value::Null,
        JsonValue::Bool(b) => Value::Bool(*b),
        JsonValue::PosInt(u) => Value::from(*u),
        JsonValue::NegInt(i) => Value::from(*i),
        JsonValue::Float(t) => serde_json::from_str(t).unwrap_or(Value::Null),
        JsonValue::Str(s) => Value::String(s.clone()),
        JsonValue::Array(xs) => Value::Array(xs.iter().map(to_serde).collect()),
        JsonValue::Object(es) => Value::Object(es.iter().map(|(k, x)| (k.clone(), to_serde(x))).collect()),
    }
}

/// Reads a JSON text with `serde_json::from_str::<serde_json::Value>`. The
/// contract names the result: it depends on the text alone. serde_json
/// (built without `preserve_order`) keeps an object's entries in a
/// `BTreeMap`, so they come out with keys strictly increasing; byte order on
/// UTF-8 is the order of the characters' code points.
#[verifier::external_body]
pub(crate) fn parse_json(s: &str) -> (r: Option<JsonValue>)
    ensures
        opt_json(r) == parsed_json(s@),
        r matches Some(v) ==> json_wf(v@),
{
    match serde_json::from_str::<Value>(s) {
        Ok(v) => Some(from_serde(&v)),
        Err(_) => None,
    }
}

/// Writes a value as compact JSON text with `serde_json::to_string`. The
/// contract names the result: it depends on the value alone.
#[verifier::external_body]
pub(crate) fn json_to_text(v: &JsonValue) -> (r: String)
    ensures
        r@ == compact_json(v@),
{
    serde_json::to_string(&to_serde(v)).unwrap_or_default()
}

/// The indented text serde_json writes for a value
/// (`serde_json::to_string_pretty`), or `None` where it fails.
pub uninterp spec fn pretty_json(v: JsonV) -> Option<Seq<char>>;

/// Writes a value as indented JSON text with `serde_json::to_string_pretty`;
/// `None` where serde_json reports an error. The contract names the
/// result: it depends on the value alone.
#[verifier::external_body]
pub(crate) fn json_to_pretty_text(v: &JsonValue) -> (r: Option<String>)
    ensures
        match r {
            Some(t) => pretty_json(v@) == Some(t@),
            None => pretty_json(v@) is None,
        },
{
    serde_json::to_string_pretty(&to_serde(v)).ok()
}

/// What `format!("{:?}", values)` prints for a list of serde_json values.
pub uninterp spec fn json_list_debug(v: Seq<JsonV>) -> Seq<char>;

/// Renders a list of values as serde_json's `Debug` prints a
/// `Vec<serde_json::Value>`. The contract names the result: it depends on
/// the values alone.
#[verifier::external_body]
pub(crate) fn debug_json_list(v: &Vec<JsonValue>) -> (r: String)
    ensures
        r@ == json_list_debug(v@.map_values(|x: JsonValue| x@)),
{
    format!("{:?}", v.iter().map(to_serde).collect::<Vec<Value>>())
}

} // verus!
