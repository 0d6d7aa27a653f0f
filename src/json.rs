//! The JSON text and UTF-8 primitives that the decoder relies on.
//!
//! Parsing JSON is left to `serde_json`; the values it builds are opaque here
//! and are read through the accessors declared below, whose contracts speak of
//! `shape_of`, `literal_of` and `entries_of`.
use vstd::prelude::*;
use vstd::utf8::{decode_utf8, valid_utf8};

verus! {

#[verifier::external_type_specification]
#[verifier::external_body]
pub struct ExJsonValue(serde_json::Value);

#[verifier::external_type_specification]
#[verifier::external_body]
pub struct ExJsonNumber(serde_json::Number);

#[verifier::external_type_specification]
#[verifier::external_body]
#[verifier::reject_recursive_types(K)]
#[verifier::reject_recursive_types(V)]
pub struct ExJsonMap<K, V>(serde_json::Map<K, V>);

/// What a JSON value is at its top level, as far as the decoder reads it.
pub enum JsonShape {
    Text(Seq<char>),
    Number(serde_json::Number),
    Array(Seq<serde_json::Value>),
    Object(serde_json::Map<String, serde_json::Value>),
    Other,
}

/// The top level of a parsed JSON value (the variant of `serde_json::Value`).
pub uninterp spec fn shape_of(v: serde_json::Value) -> JsonShape;

/// The literal text of a JSON number as `serde_json` keeps it: the input's sign
/// and digits, the exponent marker written `e` and its sign always written.
pub uninterp spec fn literal_of(n: serde_json::Number) -> Seq<char>;

/// The members of a JSON object, by key.
pub uninterp spec fn entries_of(m: serde_json::Map<String, serde_json::Value>) -> Map<
    Seq<char>,
    serde_json::Value,
>;

/// The value that `serde_json` parses from a text, or `None` where the text is
/// not one JSON document.
pub uninterp spec fn json_of(s: Seq<char>) -> Option<serde_json::Value>;

pub open spec fn text_view(r: Option<String>) -> Option<Seq<char>> {
    match r {
        Some(s) => Some(s@),
        None => None,
    }
}

/// Relies on `std::str::from_utf8`: `Ok` exactly for valid UTF-8, holding the
/// same text.
#[verifier::external_body]
pub(crate) fn utf8_decode(b: &[u8]) -> (r: Option<String>)
    ensures
        r is Some <==> valid_utf8(b@),
        r is Some ==> r->0@ == decode_utf8(b@),
{
    std::str::from_utf8(b).ok().map(|s| s.to_owned())
}

/// Relies on `serde_json::from_str::<serde_json::Value>`: parses one JSON
/// document, `Err` where the text is not one.
#[verifier::external_body]
pub(crate) fn parse_json(s: &str) -> (r: Option<serde_json::Value>)
    ensures
        r == json_of(s@),
{
    serde_json::from_str::<serde_json::Value>(s).ok()
}

/// Relies on `serde_json::Value::as_str`: `Some` exactly for a string value.
pub assume_specification[ serde_json::Value::as_str ](v: &serde_json::Value) -> (r: Option<&str>)
    ensures
        r is Some <==> shape_of(*v) is Text,
        r is Some ==> r->0@ == shape_of(*v)->Text_0,
;

/// Relies on `serde_json::Value::as_number`: `Some` exactly for a number value.
pub assume_specification[ serde_json::Value::as_number ](v: &serde_json::Value) -> (r: Option<
    &serde_json::Number,
>)
    ensures
        r is Some <==> shape_of(*v) is Number,
        r is Some ==> *r->0 == shape_of(*v)->Number_0,
;

/// Relies on `serde_json::Value::as_array`: `Some` exactly for an array value,
/// with its elements in order.
pub assume_specification[ serde_json::Value::as_array ](v: &serde_json::Value) -> (r: Option<
    &Vec<serde_json::Value>,
>)
    ensures
        r is Some <==> shape_of(*v) is Array,
        r is Some ==> r->0@ == shape_of(*v)->Array_0,
;

/// Relies on `serde_json::Value::as_object`: `Some` exactly for an object value.
pub assume_specification[ serde_json::Value::as_object ](v: &serde_json::Value) -> (r: Option<
    &serde_json::Map<String, serde_json::Value>,
>)
    ensures
        r is Some <==> shape_of(*v) is Object,
        r is Some ==> *r->0 == shape_of(*v)->Object_0,
;

/// Relies on `serde_json::Number::as_str` (with `arbitrary_precision`): the
/// number's literal text.
pub assume_specification[ serde_json::Number::as_str ](n: &serde_json::Number) -> (r: &str)
    ensures
        r@ == literal_of(*n),
;

/// Relies on `serde_json::Map::get`: the member under `key`, if there is one.
#[verifier::external_body]
pub(crate) fn member<'a>(m: &'a serde_json::Map<String, serde_json::Value>, key: &str) -> (r:
    Option<&'a serde_json::Value>)
    ensures
        r is Some <==> entries_of(*m).contains_key(key@),
        r is Some ==> *r->0 == entries_of(*m)[key@],
{
    m.get(key)
}

} // verus!
