//! The boundary to the JSON codec.
//!
//! Parsing text into a tree and printing a tree back to text are the work
//! of the `serde_json` crate; everything downstream of the tree is decoded
//! by verified code. The two operations are named by uninterpreted
//! functions: both are functions of their argument alone.

use vstd::prelude::*;

use crate::json::{Json, JsonV, jview};

verus! {

#[verifier::external_type_specification]
#[verifier::external_body]
pub struct ExValue(serde_json::Value);

/// What a string parses to: some tree for well-formed JSON, nothing for
/// malformed text.
pub uninterp spec fn json_of(s: Seq<char>) -> Option<JsonV>;

/// What a tree prints to.
pub uninterp spec fn render_of(j: JsonV) -> Seq<char>;

/// Relies on serde_json::Value and serde_json::Number: one arm per variant
/// of the parsed value, moved into the owned tree. A fractional number,
/// which no documented payload of this API carries, is read as null.
#[verifier::external_body]
fn value_to_json(v: &serde_json::Value) -> Json {
    match v {
        serde_json::Value::Null => Json::Null,
        serde_json::Value::Bool(b) => Json::Bool(*b),
        serde_json::Value::Number(n) => match (n.as_i64(), n.as_u64()) {
            (Some(i), _) => Json::Int(i),
            (None, Some(u)) => Json::UInt(u),
            (None, None) => Json::Null,
        },
        serde_json::Value::String(s) => Json::Str(s.clone()),
        serde_json::Value::Array(a) => Json::Arr(a.iter().map(value_to_json).collect()),
        serde_json::Value::Object(m) => Json::Obj(m.iter().map(|p| (p.0.clone(), value_to_json(p.1))).collect()),
    }
}

/// Relies on serde_json::Value and serde_json::Number: one arm per variant
/// of the owned tree, moved into the codec's value type.
#[verifier::external_body]
fn json_to_value(j: &Json) -> serde_json::Value {
    match j {
        Json::Null => serde_json::Value::Null,
        Json::Bool(b) => serde_json::Value::Bool(*b),
        Json::Int(i) => serde_json::Value::Number(serde_json::Number::from(*i)),
        Json::UInt(u) => serde_json::Value::Number(serde_json::Number::from(*u)),
        Json::Str(s) => serde_json::Value::String(s.clone()),
        Json::Arr(v) => serde_json::Value::Array(v.iter().map(json_to_value).collect()),
        Json::Obj(v) => serde_json::Value::Object(v.iter().map(|p| (p.0.clone(), json_to_value(&p.1))).collect()),
    }
}

/// Relies on serde_json::from_str::<serde_json::Value>: what a string
/// parses to depends on its characters alone; malformed text is refused.
#[verifier::external_body]
pub(crate) fn parse_json(s: &str) -> (r: Option<Json>)
    ensures
        match r {
            Option::Some(j) => json_of(s@) == Option::Some(jview(j)),
            Option::None => json_of(s@) is None,
        },
{
    match serde_json::from_str::<serde_json::Value>(s) {
        Ok(v) => Option::Some(value_to_json(&v)),
        Err(_) => Option::None,
    }
}

/// Relies on serde_json::to_string: what a value prints to depends on the
/// value alone, and printing a string-keyed value cannot fail.
#[verifier::external_body]
pub(crate) fn render_json(j: &Json) -> (r: String)
    ensures
        r@ == render_of(jview(*j)),
{
    match serde_json::to_string(&json_to_value(j)) {
        Ok(s) => s,
        Err(_) => String::new(),
    }
}

} // verus!
