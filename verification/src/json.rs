//! The JSON values that rules and contexts are made of.
//!
//! `serde_json::Value` stays opaque to the verifier. What the engine reads of
//! a value (whether it is an object, and which entries an object holds) and
//! what `serde_json` computes from it (its text, the value a text parses to)
//! are named here, each by the trusted item that makes the call.

use vstd::prelude::*;
use serde_json::Value;

verus! {

/// `serde_json::Value`, carried through the engine as an opaque value.
#[verifier::external_type_specification]
#[verifier::external_body]
pub struct ExJsonValue(serde_json::Value);

/// `serde_json::Map`, the collection behind a JSON object.
#[verifier::external_type_specification]
#[verifier::external_body]
#[verifier::reject_recursive_types(K)]
#[verifier::reject_recursive_types(V)]
pub struct ExJsonMap<K, V>(serde_json::Map<K, V>);

/// The map behind a JSON object.
pub type JsonMap = serde_json::Map<String, Value>;

/// The entries that a JSON object map holds, keyed by their text.
pub uninterp spec fn json_entries(m: JsonMap) -> Map<Seq<char>, Value>;

/// The JSON value `Value::Object(m)`.
pub uninterp spec fn json_object(m: JsonMap) -> Value;

/// `serde_json::Map::contains_key`: whether the map holds an entry for `key`.
#[verifier::external_body]
pub(crate) fn map_contains_key(m: &JsonMap, key: &str) -> (b: bool)
    ensures
        b == json_entries(*m).contains_key(key@),
{
    m.contains_key(key)
}

/// `serde_json::Value::as_object`: the map of an object value, `None` for
/// every other kind of value. The object variant holds exactly one map.
#[verifier::external_body]
pub(crate) fn value_as_object(v: &Value) -> (r: Option<&JsonMap>)
    ensures
        match r {
            Some(m) => *v == json_object(*m) && forall|m2| #[trigger] json_object(m2) == *v ==> m2 == *m,
            None => forall|m2| #[trigger] json_object(m2) != *v,
        },
{
    v.as_object()
}

/// `serde_json::Map` after `insert(key, value)`.
pub uninterp spec fn json_map_with(m: JsonMap, key: Seq<char>, value: Value) -> JsonMap;

/// The JSON value `Value::String(s)`.
pub uninterp spec fn json_string(s: Seq<char>) -> Value;

/// `serde_json::to_string` on a value: its compact text, or the text of the
/// error that serialization raised.
pub uninterp spec fn json_text(v: Value) -> Result<Seq<char>, Seq<char>>;

/// `serde_json::from_str::<Value>`: the value a text parses to, or the text
/// of the parse error.
pub uninterp spec fn json_parse(text: Seq<char>) -> Result<Value, Seq<char>>;

/// Whether a JSON value is an object.
pub open spec fn is_json_object(v: Value) -> bool {
    exists|m: JsonMap| json_object(m) == v
}

/// The map behind an object value.
pub open spec fn object_map(v: Value) -> JsonMap
    recommends
        is_json_object(v),
{
    choose|m: JsonMap| json_object(m) == v
}

/// The entries of an object value.
pub open spec fn object_entries(v: Value) -> Map<Seq<char>, Value>
    recommends
        is_json_object(v),
{
    json_entries(object_map(v))
}

/// A `Result` of strings, taken by the views of its strings.
pub open spec fn text_result(r: Result<String, String>) -> Result<Seq<char>, Seq<char>> {
    match r {
        Ok(s) => Ok(s@),
        Err(e) => Err(e@),
    }
}

/// `serde_json::Map::new`: an empty map.
#[verifier::external_body]
pub(crate) fn new_map() -> (m: JsonMap)
    ensures
        json_entries(m).dom() == Set::<Seq<char>>::empty(),
{
    serde_json::Map::new()
}

/// `serde_json::Map::insert`: the entry for `key` now holds `value`; every
/// other entry is unchanged.
#[verifier::external_body]
pub(crate) fn map_insert(m: &mut JsonMap, key: String, value: Value)
    ensures
        *final(m) == json_map_with(*old(m), key@, value),
        json_entries(*final(m)) == json_entries(*old(m)).insert(key@, value),
{
    m.insert(key, value);
}

/// `Value::Object(m)`. The object variant holds exactly one map.
#[verifier::external_body]
pub(crate) fn object_value(m: JsonMap) -> (v: Value)
    ensures
        v == json_object(m),
        forall|m2| #[trigger] json_object(m2) == v ==> m2 == m,
{
    Value::Object(m)
}

/// Takes the map out of an object value; any other value comes back as it was.
#[verifier::external_body]
pub(crate) fn value_into_object(v: Value) -> (r: Result<JsonMap, Value>)
    ensures
        match r {
            Ok(m) => v == json_object(m) && forall|m2| #[trigger] json_object(m2) == v ==> m2 == m,
            Err(w) => w == v && forall|m2| #[trigger] json_object(m2) != v,
        },
{
    match v {
        Value::Object(m) => Ok(m),
        other => Err(other),
    }
}

/// `Value::String(s)`.
#[verifier::external_body]
pub(crate) fn string_value(s: String) -> (v: Value)
    ensures
        v == json_string(s@),
{
    Value::String(s)
}

/// `Value::clone` (derived): a deep copy, equal to the value cloned.
pub assume_specification[ <serde_json::Value as core::clone::Clone>::clone ](v: &Value) -> (c: Value)
    ensures
        c == *v,
;

/// `serde_json::to_string` on a value; the error is rendered as text.
#[verifier::external_body]
pub(crate) fn to_json_text(v: &Value) -> (r: Result<String, String>)
    ensures
        text_result(r) == json_text(*v),
{
    match serde_json::to_string(v) {
        Ok(s) => Ok(s),
        Err(e) => Err(e.to_string()),
    }
}

/// `serde_json::from_str::<Value>`; the error is rendered as text.
#[verifier::external_body]
pub(crate) fn parse_json(text: &str) -> (r: Result<Value, String>)
    ensures
        match r {
            Ok(v) => json_parse(text@) == Ok::<Value, Seq<char>>(v),
            Err(e) => json_parse(text@) == Err::<Value, Seq<char>>(e@),
        },
{
    match serde_json::from_str::<Value>(text) {
        Ok(v) => Ok(v),
        Err(e) => Err(e.to_string()),
    }
}

} // verus!
