//! The JSON values an event body parses into: held opaquely at run
//! time and read through trusted accessors, modelled at spec level by
//! `JsonV` so that contracts can speak of what a body contains.

use vstd::prelude::*;

verus! {

/// The mathematical shape of a JSON value, as far as this library
/// reads one: nulls, strings and objects carry what the accessors
/// below can observe of them; booleans, numbers and arrays are never
/// read beyond their kind.
pub ghost enum JsonV {
    Null,
    Bool,
    Number,
    Str(Seq<char>),
    Arr,
    Obj(Map<Seq<char>, JsonV>),
}

/// The shape a JSON value holds: ties every accessor below to one
/// model of the same value.
pub uninterp spec fn model_of(v: serde_json::Value) -> JsonV;

/// The JSON value a text parses to: `None` where parsing fails (text
/// that is not JSON, or nesting past the parser's recursion limit).
/// Parsing depends on the text alone.
pub uninterp spec fn json_of(s: Seq<char>) -> Option<JsonV>;

#[verifier::external_type_specification]
#[verifier::external_body]
pub struct ExJsonValue(serde_json::Value);

/// Relies on serde_json::from_str::<Value>: `Some` exactly when
/// parsing succeeds, and then the value the text parses to.
#[verifier::external_body]
pub(crate) fn parse_json(s: &str) -> (r: Option<serde_json::Value>)
    ensures
        r is Some <==> json_of(s@) is Some,
        r matches Some(v) ==> json_of(s@) == Some(model_of(v)),
{
    serde_json::from_str::<serde_json::Value>(s).ok()
}

/// Relies on serde_json::Value::get: `Some` exactly when the value is
/// an object with the given key, and then the value under that key.
#[verifier::external_body]
pub(crate) fn json_get<'a>(v: &'a serde_json::Value, key: &str) -> (r: Option<
    &'a serde_json::Value,
>)
    ensures
        match model_of(*v) {
            JsonV::Obj(m) => {
                &&& r is Some <==> m.dom().contains(key@)
                &&& (r matches Some(f) ==> model_of(*f) == m[key@])
            },
            _ => r is None,
        },
{
    v.get(key)
}

/// Relies on serde_json::Value::as_str: `Some` exactly when the value
/// is a JSON string, and then its text.
#[verifier::external_body]
pub(crate) fn json_as_str<'a>(v: &'a serde_json::Value) -> (r: Option<&'a str>)
    ensures
        r is Some <==> model_of(*v) is Str,
        r matches Some(s) ==> model_of(*v) == JsonV::Str(s@),
{
    v.as_str()
}

/// Relies on serde_json::Value::is_null: true exactly on JSON null.
#[verifier::external_body]
pub(crate) fn json_is_null(v: &serde_json::Value) -> (r: bool)
    ensures
        r == (model_of(*v) is Null),
{
    v.is_null()
}

} // verus!
