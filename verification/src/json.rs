//! JSON documents as `serde_json` holds them, and the few operations on them
//! that the gateway needs. Nothing in this module is proved: it records what
//! `serde_json` does, and the rest of the crate is verified against it.

use vstd::prelude::*;

verus! {

/// `serde_json::Value`, opaque to the verifier.
#[verifier::external_type_specification]
#[verifier::external_body]
pub struct ExValue(serde_json::Value);

/// `serde_json::Error`, opaque to the verifier.
#[verifier::external_type_specification]
#[verifier::external_body]
pub struct ExJsonError(serde_json::Error);

/// One level of a JSON document: which variant a value is, and what it holds.
pub ghost enum JsonShape {
    Null,
    Bool(bool),
    Number,
    Text(Seq<char>),
    Array(Seq<serde_json::Value>),
    Object(Map<Seq<char>, serde_json::Value>),
}

/// The variant of a `serde_json::Value` and its direct contents.
pub uninterp spec fn json_shape(v: serde_json::Value) -> JsonShape;

/// The document that `serde_json::from_slice` reads from `bytes`, if it
/// accepts them.
pub uninterp spec fn json_parse(bytes: Seq<u8>) -> Option<serde_json::Value>;

/// The member of an object under `key`; `None` for a missing key and for
/// anything that is not an object.
pub open spec fn member(v: serde_json::Value, key: Seq<char>) -> Option<serde_json::Value> {
    match json_shape(v) {
        JsonShape::Object(m) => if m.contains_key(key) {
            Some(m[key])
        } else {
            None
        },
        _ => None,
    }
}

/// The elements of an array; `None` for anything that is not an array.
pub open spec fn elements(v: serde_json::Value) -> Option<Seq<serde_json::Value>> {
    match json_shape(v) {
        JsonShape::Array(s) => Some(s),
        _ => None,
    }
}

/// The characters of a JSON string; `None` for anything that is not a string.
pub open spec fn text(v: serde_json::Value) -> Option<Seq<char>> {
    match json_shape(v) {
        JsonShape::Text(s) => Some(s),
        _ => None,
    }
}

/// Whether the value is a JSON number.
pub open spec fn is_numeric(v: serde_json::Value) -> bool {
    json_shape(v) is Number
}

/// `serde_json::from_slice` at type `Value`: the outcome is a function of the
/// bytes alone, and it succeeds exactly on the inputs for which
/// [`json_parse`] names a document.
#[verifier::external_body]
pub(crate) fn parse_document(bytes: &[u8]) -> (r: Result<serde_json::Value, serde_json::Error>)
    ensures
        r is Ok <==> json_parse(bytes@) is Some,
        r is Ok ==> json_parse(bytes@) == Some(r->Ok_0),
{
    serde_json::from_slice(bytes)
}

/// `Value::get` with a string index: the member under `key` when the value is
/// an object that has it, `None` otherwise.
#[verifier::external_body]
pub(crate) fn get_member<'a>(v: &'a serde_json::Value, key: &str) -> (r: Option<&'a serde_json::Value>)
    ensures
        match r {
            Some(m) => json_shape(*v) is Object && json_shape(*v)->Object_0.contains_key(key@)
                && json_shape(*v)->Object_0[key@] == *m,
            None => !(json_shape(*v) is Object && json_shape(*v)->Object_0.contains_key(key@)),
        },
{
    v.get(key)
}

/// `Value::as_array`: the vector of an array, `None` for any other variant.
pub assume_specification<'a>[ serde_json::Value::as_array ](v: &'a serde_json::Value) -> (r: Option<
    &'a Vec<serde_json::Value>,
>)
    ensures
        match r {
            Some(items) => json_shape(*v) == JsonShape::Array(items@),
            None => !(json_shape(*v) is Array),
        },
;

/// `Value::as_str`: the slice of a string, `None` for any other variant.
pub assume_specification<'a>[ serde_json::Value::as_str ](v: &'a serde_json::Value) -> (r: Option<
    &'a str,
>)
    ensures
        match r {
            Some(s) => json_shape(*v) == JsonShape::Text(s@),
            None => !(json_shape(*v) is Text),
        },
;

/// `Value::is_number`: whether the variant is `Number`.
pub assume_specification[ serde_json::Value::is_number ](v: &serde_json::Value) -> (r: bool)
    ensures
        r == (json_shape(*v) is Number),
;

/// `Value::clone`, as derived: the copy is the same document.
pub assume_specification[ <serde_json::Value as Clone>::clone ](v: &serde_json::Value) -> (r:
    serde_json::Value)
    ensures
        r == *v,
;

} // verus!
