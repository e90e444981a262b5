//! Trusted boundary to `serde_json`: a model of JSON documents, and
//! wrappers around parsing, field access and serialization.

use vstd::prelude::*;

verus! {

#[verifier::external_type_specification]
#[verifier::external_body]
pub struct ExValue(serde_json::Value);

#[verifier::external_type_specification]
#[verifier::external_body]
#[verifier::reject_recursive_types(K)]
#[verifier::reject_recursive_types(V)]
pub struct ExJsonMap<K, V>(serde_json::Map<K, V>);

/// The model of a JSON document.  A number is modeled by the text
/// `serde_json` prints for it together with its value as a `u64` when it has
/// one; an object is modeled by its key/value map (later duplicates win).
pub enum Jv {
    Null,
    Bool(bool),
    Num { printed: Seq<char>, int_val: Option<u64> },
    Str(Seq<char>),
    Arr(Seq<Jv>),
    Obj(Map<Seq<char>, Jv>),
}

/// The model of a `serde_json::Value`.
pub uninterp spec fn json_of(v: serde_json::Value) -> Jv;

/// What `serde_json::from_str::<Value>` returns: the parsed document, or
/// nothing when the text is not valid JSON.
pub uninterp spec fn parsed_json(s: Seq<char>) -> Option<Jv>;

/// What the Display impl of `serde_json::Value` prints: the compact JSON
/// text of a document.
pub uninterp spec fn json_text(j: Jv) -> Seq<char>;

/// The model of a `serde_json::Map<String, Value>`.
pub uninterp spec fn map_of(m: serde_json::Map<String, serde_json::Value>) -> Map<Seq<char>, Jv>;

/// Relies on serde_json::from_str::<Value>: parses a JSON document,
/// deterministically in the text alone.
#[verifier::external_body]
pub(crate) fn parse_json(s: &str) -> (r: Result<serde_json::Value, String>)
    ensures
        r is Ok <==> parsed_json(s@) is Some,
        r matches Ok(v) ==> json_of(v) == parsed_json(s@)->0,
{
    serde_json::from_str::<serde_json::Value>(s).map_err(|e| e.to_string())
}

/// Relies on serde_json::Value::get with a string index: looks the key up
/// when the value is an object, and returns nothing otherwise.
#[verifier::external_body]
pub(crate) fn json_get<'a>(v: &'a serde_json::Value, key: &str) -> (r: Option<
    &'a serde_json::Value,
>)
    ensures
        match json_of(*v) {
            Jv::Obj(m) => {
                &&& r is Some <==> m.contains_key(key@)
                &&& (r matches Some(f) ==> json_of(*f) == m[key@])
            },
            _ => r is None,
        },
{
    v.get(key)
}

/// Relies on serde_json::Value::as_array.
#[verifier::external_body]
pub(crate) fn json_as_array<'a>(v: &'a serde_json::Value) -> (r: Option<
    &'a Vec<serde_json::Value>,
>)
    ensures
        match json_of(*v) {
            Jv::Arr(items) => r matches Some(a) && a@.len() == items.len() && (forall|i: int|
                0 <= i < items.len() ==> json_of(a@[i]) == items[i]),
            _ => r is None,
        },
{
    v.as_array()
}

/// Relies on serde_json::Value::as_u64: the numeric value when the document
/// holds an unsigned integer that fits in a `u64`.
#[verifier::external_body]
pub(crate) fn json_as_u64(v: &serde_json::Value) -> (r: Option<u64>)
    ensures
        match json_of(*v) {
            Jv::Num { int_val, .. } => r == int_val,
            _ => r is None,
        },
{
    v.as_u64()
}

/// Relies on serde_json::Value::as_str.
#[verifier::external_body]
pub(crate) fn json_as_str<'a>(v: &'a serde_json::Value) -> (r: Option<&'a str>)
    ensures
        match json_of(*v) {
            Jv::Str(s) => r matches Some(t) && t@ == s,
            _ => r is None,
        },
{
    v.as_str()
}

/// Relies on serde_json::Value::is_number.
#[verifier::external_body]
pub(crate) fn json_is_number(v: &serde_json::Value) -> (r: bool)
    ensures
        r == (json_of(*v) is Num),
{
    v.is_number()
}

/// Relies on serde_json::Value::is_object.
#[verifier::external_body]
pub(crate) fn json_is_object(v: &serde_json::Value) -> (r: bool)
    ensures
        r == (json_of(*v) is Obj),
{
    v.is_object()
}

/// Relies on serde_json::Value::is_null.
#[verifier::external_body]
pub(crate) fn json_is_null(v: &serde_json::Value) -> (r: bool)
    ensures
        r == (json_of(*v) is Null),
{
    v.is_null()
}

/// Relies on the Display impl of serde_json::Value: the compact JSON text of
/// the value; for a number, exactly its printed representation.
#[verifier::external_body]
pub(crate) fn json_to_text(v: &serde_json::Value) -> (r: String)
    ensures
        r@ == json_text(json_of(*v)),
        json_of(*v) matches Jv::Num { printed, .. } ==> r@ == printed,
{
    v.to_string()
}

/// Relies on serde_json::Map::new: an empty object map.
#[verifier::external_body]
pub(crate) fn json_map_new() -> (r: serde_json::Map<String, serde_json::Value>)
    ensures
        map_of(r) =~= Map::empty(),
{
    serde_json::Map::new()
}

/// Relies on serde_json::Map::insert: binds `key` to `value`, replacing any
/// earlier binding for the key.
#[verifier::external_body]
pub(crate) fn json_map_insert(
    m: &mut serde_json::Map<String, serde_json::Value>,
    key: &str,
    value: serde_json::Value,
)
    ensures
        map_of(*final(m)) == map_of(*old(m)).insert(key@, json_of(value)),
{
    m.insert(key.to_owned(), value);
}

/// Relies on the Value::Object constructor: wraps an object map as a value.
#[verifier::external_body]
pub(crate) fn json_object(m: serde_json::Map<String, serde_json::Value>) -> (r:
    serde_json::Value)
    ensures
        json_of(r) == Jv::Obj(map_of(m)),
{
    serde_json::Value::Object(m)
}

/// Relies on the Value::String constructor.
#[verifier::external_body]
pub(crate) fn json_string(s: &str) -> (r: serde_json::Value)
    ensures
        json_of(r) == Jv::Str(s@),
{
    serde_json::Value::String(s.to_owned())
}

/// Relies on the Value::Bool constructor.
#[verifier::external_body]
pub(crate) fn json_bool(b: bool) -> (r: serde_json::Value)
    ensures
        json_of(r) == Jv::Bool(b),
{
    serde_json::Value::Bool(b)
}

/// Relies on From<u32> for serde_json::Value: a JSON number with that
/// integer value, printed in plain decimal.
#[verifier::external_body]
pub(crate) fn json_u32(n: u32) -> (r: serde_json::Value)
    ensures
        json_of(r) == (Jv::Num { printed: crate::text::spec_dec(n as nat), int_val: Some(n as u64) }),
{
    serde_json::Value::from(n)
}

/// Relies on Clone for serde_json::Value: the copy models the same document.
#[verifier::external_body]
pub(crate) fn clone_value(v: &serde_json::Value) -> (r: serde_json::Value)
    ensures
        json_of(r) == json_of(*v),
{
    v.clone()
}

} // verus!
