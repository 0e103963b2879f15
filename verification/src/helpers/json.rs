//! The JSON objects handed to the templates and returned by the API, kept as `serde_json`
//! maps. A map's contents are followed as a map from key characters to values.

use vstd::prelude::*;

use serde_json::Value;

verus! {

#[verifier::external_type_specification]
#[verifier::external_body]
pub struct ExJsonValue(serde_json::Value);

#[verifier::external_type_specification]
#[verifier::external_body]
#[verifier::reject_recursive_types(K)]
#[verifier::reject_recursive_types(V)]
pub struct ExJsonMap<K, V>(serde_json::Map<K, V>);

/// The entries of a JSON object, by the characters of their keys.
pub uninterp spec fn json_entries(m: serde_json::Map<String, serde_json::Value>) -> Map<
    Seq<char>,
    serde_json::Value,
>;

/// The JSON object with the given entries (`Value::Object`).
pub uninterp spec fn json_object(entries: Map<Seq<char>, serde_json::Value>) -> serde_json::Value;

/// The JSON string holding the characters (`Value::from(&str)`).
pub uninterp spec fn json_string(s: Seq<char>) -> serde_json::Value;

/// The JSON boolean, or `null` for `None` (`Value::from(Option<bool>)`).
pub uninterp spec fn json_optional_bool(b: Option<bool>) -> serde_json::Value;

/// The entries of the empty object.
pub open spec fn no_entries() -> Map<Seq<char>, serde_json::Value> {
    Map::empty()
}

/// The shape of a JSON value as the view helpers distinguish it.
pub enum JsonShape {
    Object(serde_json::Map<String, Value>),
    Null,
    /// Any other value: a boolean, number, string or array.
    Other(Value),
}

/// The JSON value a shape stands for.
pub open spec fn value_of_shape(s: JsonShape) -> Value {
    match s {
        JsonShape::Object(m) => json_object(json_entries(m)),
        JsonShape::Null => json_optional_bool(None),
        JsonShape::Other(v) => v,
    }
}

/// `Map::new`: an empty object.
#[verifier::external_body]
pub(crate) fn map_new() -> (m: serde_json::Map<String, Value>)
    ensures
        json_entries(m) == no_entries(),
{
    serde_json::Map::new()
}

/// `Map::contains_key`: whether the object has the key.
#[verifier::external_body]
pub(crate) fn map_contains_key(m: &serde_json::Map<String, Value>, key: &str) -> (r: bool)
    ensures
        r == json_entries(*m).contains_key(key@),
{
    m.contains_key(key)
}

/// `Map::insert`: set the value of a key, adding the key if it is new; the old value, if any,
/// is returned.
#[verifier::external_body]
pub(crate) fn map_insert(m: &mut serde_json::Map<String, Value>, key: String, value: Value) -> (prev:
    Option<Value>)
    ensures
        json_entries(*final(m)) == json_entries(*old(m)).insert(key@, value),
        prev == (if json_entries(*old(m)).contains_key(key@) {
            Some(json_entries(*old(m))[key@])
        } else {
            None
        }),
{
    m.insert(key, value)
}

/// `Map::append`: move every entry of `other` into `m`, the entries of `other` replacing those
/// of `m` with the same key; `other` is left empty.
#[verifier::external_body]
pub(crate) fn map_append(m: &mut serde_json::Map<String, Value>, other: &mut serde_json::Map<String, Value>)
    ensures
        json_entries(*final(m)) == json_entries(*old(m)).union_prefer_right(json_entries(*old(other))),
        json_entries(*final(other)) == no_entries(),
{
    m.append(other)
}

/// `Value::Object`: the object as a JSON value.
#[verifier::external_body]
pub(crate) fn object_value(m: serde_json::Map<String, Value>) -> (v: Value)
    ensures
        v == json_object(json_entries(m)),
{
    Value::Object(m)
}

/// `Value::from(&str)`: the JSON string holding `s`.
#[verifier::external_body]
pub(crate) fn string_value(s: &str) -> (v: Value)
    ensures
        v == json_string(s@),
{
    Value::from(s)
}

/// `Value::from(Option<bool>)`: a JSON boolean, or `null` for `None`.
#[verifier::external_body]
pub(crate) fn optional_bool_value(b: Option<bool>) -> (v: Value)
    ensures
        v == json_optional_bool(b),
{
    Value::from(b)
}

/// Whether `v` is the object of some finite set of entries.
pub open spec fn is_object_value(v: Value) -> bool {
    exists|e: Map<Seq<char>, Value>| e.dom().finite() && #[trigger] json_object(e) == v
}

/// Tell an object and null apart from every other JSON value. An object's entries are finite
/// and determine it; objects, `null` and the other values are distinct.
#[verifier::external_body]
pub(crate) fn shape_of(v: Value) -> (s: JsonShape)
    ensures
        value_of_shape(s) == v,
        s matches JsonShape::Object(m) ==> json_entries(m).dom().finite(),
        s matches JsonShape::Object(m) ==> forall|e: Map<Seq<char>, Value>|
            e.dom().finite() && #[trigger] json_object(e) == v ==> e == json_entries(m),
        s matches JsonShape::Object(_) ==> v != json_optional_bool(None),
        !(s matches JsonShape::Object(_)) ==> forall|e: Map<Seq<char>, Value>|
            e.dom().finite() ==> #[trigger] json_object(e) != v,
        s matches JsonShape::Other(_) ==> v != json_optional_bool(None),
{
    match v {
        Value::Object(m) => JsonShape::Object(m),
        Value::Null => JsonShape::Null,
        v @ (Value::Bool(_) | Value::Number(_) | Value::String(_) | Value::Array(_)) => {
            JsonShape::Other(v)
        },
    }
}

} // verus!
