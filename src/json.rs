//! The boundary to serde_json: its value types, declared to Verus as opaque,
//! and the few calls the library makes on them. What serde_json computes is
//! named by uninterpreted spec functions; the library's contracts are stated
//! over those names.
use vstd::prelude::*;
use serde_json::Value;

verus! {

#[verifier::external_type_specification]
#[verifier::external_body]
pub struct ExJsonValue(serde_json::Value);

#[verifier::external_type_specification]
#[verifier::external_body]
#[verifier::reject_recursive_types(K)]
#[verifier::reject_recursive_types(V)]
pub struct ExJsonMap<K, V>(serde_json::Map<K, V>);

#[verifier::external_type_specification]
#[verifier::external_body]
pub struct ExJsonError(serde_json::Error);

/// A JSON object: serde_json's map from keys to values.
pub type JsonObject = serde_json::Map<String, Value>;

/// The entries of a JSON object, keyed by the characters of each key.
pub uninterp spec fn object_entries(m: serde_json::Map<String, Value>) -> Map<Seq<char>, Value>;

/// The entries of the JSON object that a text holds, if it holds one.
pub uninterp spec fn parsed_object(s: Seq<char>) -> Option<Map<Seq<char>, Value>>;

/// The JSON value that a text holds, if it holds exactly one.
pub uninterp spec fn parsed_value(s: Seq<char>) -> Option<Value>;

/// The elements of the JSON array that a text holds, if it holds one.
pub uninterp spec fn parsed_array(s: Seq<char>) -> Option<Seq<Value>>;

/// The characters of a JSON string value.
pub uninterp spec fn string_of(v: Value) -> Option<Seq<char>>;

/// The elements of a JSON array value.
pub uninterp spec fn array_of(v: Value) -> Option<Seq<Value>>;

/// The entries of a JSON object value.
pub uninterp spec fn object_of(v: Value) -> Option<Map<Seq<char>, Value>>;

/// The value under `key` in a set of object entries.
pub open spec fn entry(entries: Map<Seq<char>, Value>, key: Seq<char>) -> Option<Value> {
    if entries.dom().contains(key) {
        Some(entries[key])
    } else {
        None
    }
}

/// The string under `key` in an object, if there is one.
pub open spec fn string_entry(obj: Map<Seq<char>, Value>, key: Seq<char>) -> Option<Seq<char>> {
    match entry(obj, key) {
        Some(v) => string_of(v),
        None => None,
    }
}

/// The string under `key` in `obj`, if there is one.
pub(crate) fn string_field<'a>(obj: &'a JsonObject, key: &str) -> (r: Option<&'a str>)
    ensures
        r matches Some(s) ==> string_entry(object_entries(*obj), key@) == Some(s@),
        r is None ==> string_entry(object_entries(*obj), key@) is None,
{
    match object_get(obj, key) {
        Some(v) => value_str(v),
        None => None,
    }
}

/// Relies on `serde_json::from_str::<Map<String, Value>>`: its `deserialize_map`
/// accepts only input whose first non-blank byte is `{`.
#[verifier::external_body]
pub(crate) fn parse_object(s: &str) -> (r: Result<JsonObject, serde_json::Error>)
    ensures
        r is Ok <==> parsed_object(s@) is Some,
        r matches Ok(m) ==> parsed_object(s@) == Some(object_entries(m)),
        r is Ok ==> s@.contains('{'),
{
    serde_json::from_str::<JsonObject>(s)
}

/// Relies on `serde_json::from_str::<Value>`: succeeds on any single JSON value.
#[verifier::external_body]
pub(crate) fn parse_value(s: &str) -> (r: Result<Value, serde_json::Error>)
    ensures
        r is Ok <==> parsed_value(s@) is Some,
        r matches Ok(v) ==> parsed_value(s@) == Some(v),
{
    serde_json::from_str::<Value>(s)
}

/// Relies on `serde_json::from_str::<Vec<Value>>`: the elements of a JSON array, in order.
#[verifier::external_body]
pub(crate) fn parse_array(s: &str) -> (r: Result<Vec<Value>, serde_json::Error>)
    ensures
        r is Ok <==> parsed_array(s@) is Some,
        r matches Ok(items) ==> parsed_array(s@) == Some(items@),
{
    serde_json::from_str::<Vec<Value>>(s)
}

/// Relies on `Value::as_str`.
#[verifier::external_body]
pub(crate) fn value_str(v: &Value) -> (r: Option<&str>)
    ensures
        r is None <==> string_of(*v) is None,
        r matches Some(t) ==> string_of(*v) == Some(t@),
{
    v.as_str()
}

/// Relies on `Value::as_array`.
#[verifier::external_body]
pub(crate) fn value_array(v: &Value) -> (r: Option<&Vec<Value>>)
    ensures
        r is None <==> array_of(*v) is None,
        r matches Some(items) ==> array_of(*v) == Some(items@),
{
    v.as_array()
}

/// Relies on `Value::as_object`.
#[verifier::external_body]
pub(crate) fn value_object(v: &Value) -> (r: Option<&JsonObject>)
    ensures
        r is None <==> object_of(*v) is None,
        r matches Some(m) ==> object_of(*v) == Some(object_entries(*m)),
{
    v.as_object()
}

/// Relies on `Map::get`: the value stored under `key`, if any.
#[verifier::external_body]
pub(crate) fn object_get<'a>(m: &'a JsonObject, key: &str) -> (r: Option<&'a Value>)
    ensures
        r matches Some(v) ==> entry(object_entries(*m), key@) == Some(*v),
        r is None ==> entry(object_entries(*m), key@) is None,
{
    m.get(key)
}

} // verus!
