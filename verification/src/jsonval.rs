//! Access to `serde_json` values. A parsed JSON document is held as an
//! opaque `serde_json::Value`; its content is described by the ghost
//! model `JsonV`, which every accessor's contract speaks of. The
//! document-shape logic that walks a value is then verified against
//! exact statements about the model.
use vstd::prelude::*;

verus! {

#[verifier::external_type_specification]
#[verifier::external_body]
pub struct ExValue(serde_json::Value);

/// The mathematical content of a JSON value: the tree of nulls,
/// booleans, numbers, strings, arrays and objects. A number carries
/// the u64 it reads as, when it is a non-negative integer fitting u64
/// — all the arithmetic this library ever does on one.
pub ghost enum JsonV {
    Null,
    Bool(bool),
    Num(Option<u64>),
    Str(Seq<char>),
    Arr(Seq<JsonV>),
    Obj(Map<Seq<char>, JsonV>),
}

/// The content of an opaque JSON value.
pub uninterp spec fn model(v: serde_json::Value) -> JsonV;

/// The content of the JSON document a text parses to, if it is valid
/// JSON. What `parse` returns.
pub uninterp spec fn json_text_of(text: Seq<char>) -> Option<JsonV>;

/// The content of the JSON document a byte string parses to, if it is
/// valid JSON. What `parse_bytes` returns.
pub uninterp spec fn json_bytes_of(bytes: Seq<u8>) -> Option<JsonV>;

/// The field of a JSON object, if the value is an object carrying it.
pub open spec fn spec_field(m: JsonV, key: Seq<char>) -> Option<JsonV> {
    match m {
        JsonV::Obj(fields) => if fields.contains_key(key) {
            Some(fields[key])
        } else {
            None
        },
        _ => None,
    }
}

/// The text of a string-valued field of a JSON object, if present
/// with that type.
pub open spec fn spec_string_field(m: JsonV, key: Seq<char>) -> Option<Seq<char>> {
    match spec_field(m, key) {
        Some(JsonV::Str(s)) => Some(s),
        _ => None,
    }
}

/// Relies on serde_json::from_str: parses a JSON document, or fails;
/// a function of the text alone.
#[verifier::external_body]
pub(crate) fn parse(text: &str) -> (r: Option<serde_json::Value>)
    ensures
        match r {
            Some(v) => json_text_of(text@) == Some(model(v)),
            None => json_text_of(text@) is None,
        },
{
    serde_json::from_str(text).ok()
}

/// Relies on serde_json::from_slice: parses a JSON document from raw
/// bytes, or fails; a function of the bytes alone.
#[verifier::external_body]
pub(crate) fn parse_bytes(bytes: &Vec<u8>) -> (r: Option<serde_json::Value>)
    ensures
        match r {
            Some(v) => json_bytes_of(bytes@) == Some(model(v)),
            None => json_bytes_of(bytes@) is None,
        },
{
    serde_json::from_slice(bytes.as_slice()).ok()
}

/// Relies on serde_json::Value::get: looks a field up in a JSON
/// object; `None` when the value is not an object or has no such field.
#[verifier::external_body]
pub(crate) fn get<'a>(value: &'a serde_json::Value, key: &str) -> (r: Option<
    &'a serde_json::Value,
>)
    ensures
        match model(*value) {
            JsonV::Obj(fields) => if fields.contains_key(key@) {
                r matches Some(f) && model(*f) == fields[key@]
            } else {
                r is None
            },
            _ => r is None,
        },
{
    value.get(key)
}

/// Relies on serde_json::Value::as_array: the elements of a JSON
/// array, `None` when the value is not an array.
#[verifier::external_body]
pub(crate) fn as_array<'a>(value: &'a serde_json::Value) -> (r: Option<&'a Vec<serde_json::Value>>)
    ensures
        match model(*value) {
            JsonV::Arr(items) => r matches Some(elements) && elements@.len() == items.len() && (
            forall|i: int| 0 <= i < items.len() ==> model(elements@[i]) == items[i]),
            _ => r is None,
        },
{
    value.as_array()
}

/// Relies on serde_json::Value::as_str: the content of a JSON string,
/// `None` when the value is not a string.
#[verifier::external_body]
pub(crate) fn as_string(value: &serde_json::Value) -> (r: Option<String>)
    ensures
        match model(*value) {
            JsonV::Str(s) => r matches Some(text) && text@ == s,
            _ => r is None,
        },
{
    value.as_str().map(|s| s.to_owned())
}

/// Relies on serde_json::Value::as_u64: the content of a JSON number
/// when it is a non-negative integer that fits in a u64, else `None`.
#[verifier::external_body]
pub(crate) fn as_u64(value: &serde_json::Value) -> (r: Option<u64>)
    ensures
        match model(*value) {
            JsonV::Num(n) => r == n,
            _ => r is None,
        },
{
    value.as_u64()
}

} // verus!
