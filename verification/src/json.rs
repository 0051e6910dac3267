//! The seam to `serde_json`: response bodies are parsed by the outside
//! crate, and the parsed tree is observed through a handful of trusted
//! wrappers.
//!
//! A parsed value is opaque here; `json_repr` names its content
//! abstractly, and each wrapper states what its observation returns as a
//! function of that content. `serde_json` builds objects on a B-tree map
//! (the crate's default), so every observation below is a function of the
//! parsed text alone.

use vstd::prelude::*;

verus! {

#[verifier::external_type_specification]
#[verifier::external_body]
pub struct ExValue(serde_json::Value);

/// The content of a parsed JSON value, abstractly.
pub uninterp spec fn json_repr(v: serde_json::Value) -> Seq<char>;

/// What `serde_json::from_str::<Value>` returns on a text: the content
/// of the parsed document, or nothing where the text is malformed.
pub uninterp spec fn json_doc(s: Seq<char>) -> Option<Seq<char>>;

/// What `serde_json::Value::get` returns on an object's content and a
/// key: the member's content, or nothing.
pub uninterp spec fn json_field(doc: Seq<char>, key: Seq<char>) -> Option<Seq<char>>;

/// What `serde_json::Value::as_str` returns on a value's content: the
/// characters of a string value, or nothing.
pub uninterp spec fn json_str(doc: Seq<char>) -> Option<Seq<char>>;

/// What `serde_json::Value::as_u64` returns on a value's content: a
/// number representable as `u64`, or nothing.
pub uninterp spec fn json_u64(doc: Seq<char>) -> Option<u64>;

/// What `serde_json::Value::as_array` returns on a value's content: the
/// contents of an array's items in order, or nothing.
pub uninterp spec fn json_arr(doc: Seq<char>) -> Option<Seq<Seq<char>>>;

/// What `serde_json::Value::is_null` returns on a value's content.
pub uninterp spec fn json_is_null(doc: Seq<char>) -> bool;

/// Relies on `serde_json::from_str::<Value>`: parsing is deterministic
/// in the input text, and fails exactly on malformed JSON.
#[verifier::external_body]
pub(crate) fn parse_json(s: &str) -> (r: Option<serde_json::Value>)
    ensures
        r is Some <==> json_doc(s@) is Some,
        r matches Some(v) ==> json_doc(s@) == Some(json_repr(v)),
{
    serde_json::from_str::<serde_json::Value>(s).ok()
}

/// Relies on `serde_json::Value::get` with a string index: member lookup
/// in an object, nothing on other values or absent keys.
#[verifier::external_body]
pub(crate) fn json_get<'a>(v: &'a serde_json::Value, key: &str) -> (r: Option<&'a serde_json::Value>)
    ensures
        r is Some <==> json_field(json_repr(*v), key@) is Some,
        r matches Some(w) ==> json_field(json_repr(*v), key@) == Some(json_repr(*w)),
{
    v.get(key)
}

/// Relies on `serde_json::Value::as_str`: the string slice of a string
/// value, nothing on other values.
#[verifier::external_body]
pub(crate) fn json_as_str<'a>(v: &'a serde_json::Value) -> (r: Option<&'a str>)
    ensures
        r is Some <==> json_str(json_repr(*v)) is Some,
        r matches Some(s) ==> json_str(json_repr(*v)) == Some(s@),
{
    v.as_str()
}

/// Relies on `serde_json::Value::as_u64`: the value of a number
/// representable as `u64`, nothing otherwise.
#[verifier::external_body]
pub(crate) fn json_as_u64(v: &serde_json::Value) -> (r: Option<u64>)
    ensures
        r == json_u64(json_repr(*v)),
{
    v.as_u64()
}

/// Relies on `serde_json::Value::as_array`: the items of an array value
/// in order, nothing on other values.
#[verifier::external_body]
pub(crate) fn json_as_array<'a>(v: &'a serde_json::Value) -> (r: Option<&'a Vec<serde_json::Value>>)
    ensures
        r is Some <==> json_arr(json_repr(*v)) is Some,
        r matches Some(a) ==> (json_arr(json_repr(*v)) matches Some(items) && items.len()
            == a@.len() && (forall|i: int|
            0 <= i < a@.len() ==> #[trigger] items[i] == json_repr(a@[i]))),
{
    v.as_array()
}

/// Relies on `serde_json::Value::is_null`: true exactly on the null
/// value.
#[verifier::external_body]
pub(crate) fn json_value_is_null(v: &serde_json::Value) -> (r: bool)
    ensures
        r == json_is_null(json_repr(*v)),
{
    v.is_null()
}

} // verus!
