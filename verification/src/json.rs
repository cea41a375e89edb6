//! JSON documents through `serde_json::Value`.
//!
//! The library reads JSON only by asking a parsed document a few questions
//! (member of an object, elements of an array, text of a string, number of a
//! number). Each question is one `serde_json` call; its answer is named by an
//! uninterpreted spec function, because it depends on the document alone.
use vstd::prelude::*;
use serde_json::Value;

verus! {

/// A parsed JSON value (`serde_json::Value`).
#[verifier::external_type_specification]
#[verifier::external_body]
pub struct ExJsonValue(serde_json::Value);

/// `<Value as Clone>::clone`: a deep copy, indistinguishable from the original.
/// The derived `Clone` of claims, which carry a JSON value, calls it.
pub assume_specification[ <serde_json::Value as Clone>::clone ](v: &serde_json::Value) -> (r: serde_json::Value)
    ensures
        r == *v,
;

/// The JSON value of a text, if the text is one JSON document.
pub uninterp spec fn json_document(text: Seq<char>) -> Option<Value>;

/// Member `key` of an object; `None` for a missing key or a value that is not
/// an object.
pub uninterp spec fn json_member(v: Value, key: Seq<char>) -> Option<Value>;

/// Elements of an array; `None` for a value that is not an array.
pub uninterp spec fn json_elements(v: Value) -> Option<Seq<Value>>;

/// Text of a string; `None` for a value that is not a string.
pub uninterp spec fn json_text(v: Value) -> Option<Seq<char>>;

/// A number as the bits of the nearest binary64 value; `None` for a value
/// that is not a number.
pub uninterp spec fn json_number_bits(v: Value) -> Option<u64>;

/// The value is `null`.
pub uninterp spec fn json_is_null(v: Value) -> bool;

/// The value is an object.
pub uninterp spec fn json_is_object(v: Value) -> bool;

/// `serde_json::from_str::<Value>`: the document, or `None` when the text is
/// not exactly one JSON value (surrounding whitespace allowed).
#[verifier::external_body]
pub(crate) fn parse_json(text: &str) -> (r: Option<Value>)
    ensures
        r == json_document(text@),
{
    serde_json::from_str::<Value>(text).ok()
}

/// `Value::get` with a string key.
#[verifier::external_body]
pub(crate) fn member<'a>(v: &'a Value, key: &str) -> (r: Option<&'a Value>)
    ensures
        match r {
            Some(m) => json_member(*v, key@) == Some(*m),
            None => json_member(*v, key@) is None,
        },
{
    v.get(key)
}

/// `Value::as_array`.
#[verifier::external_body]
pub(crate) fn elements(v: &Value) -> (r: Option<&Vec<Value>>)
    ensures
        match r {
            Some(a) => json_elements(*v) == Some(a@),
            None => json_elements(*v) is None,
        },
{
    v.as_array()
}

/// `Value::as_str`.
#[verifier::external_body]
pub(crate) fn text(v: &Value) -> (r: Option<&str>)
    ensures
        match r {
            Some(s) => json_text(*v) == Some(s@),
            None => json_text(*v) is None,
        },
{
    v.as_str()
}

/// `Value::as_f64`, answered as the bit pattern of the binary64 value.
#[verifier::external_body]
pub(crate) fn number_bits(v: &Value) -> (r: Option<u64>)
    ensures
        r == json_number_bits(*v),
{
    v.as_f64().map(|x| x.to_bits())
}

/// `Value::is_null`.
#[verifier::external_body]
pub(crate) fn is_null(v: &Value) -> (r: bool)
    ensures
        r == json_is_null(*v),
{
    v.is_null()
}

/// `Value::is_object`.
#[verifier::external_body]
pub(crate) fn is_object(v: &Value) -> (r: bool)
    ensures
        r == json_is_object(*v),
{
    v.is_object()
}

} // verus!
