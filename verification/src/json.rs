//! Access to a parsed JSON document. The document itself is a
//! `serde_json::Value`; what it holds is read through JSON pointers.

use vstd::prelude::*;

verus! {

/// A parsed JSON document, or a value inside one. Nothing is read from it
/// but through the functions of this module.
#[verifier::external_type_specification]
#[verifier::external_body]
pub struct ExJsonValue(serde_json::Value);

/// The error of the JSON parser. Nothing is read from it.
#[verifier::external_type_specification]
#[verifier::external_body]
pub struct ExJsonError(serde_json::Error);

/// The document that `text` holds; nothing where `text` is not one JSON
/// document.
pub uninterp spec fn json_document(text: Seq<char>) -> Option<serde_json::Value>;

/// The value that `document` holds at the JSON pointer `pointer`; nothing
/// where it holds none there.
pub uninterp spec fn json_at(document: serde_json::Value, pointer: Seq<char>) -> Option<
    serde_json::Value,
>;

/// The elements of `value` where it is an array; nothing where it is not.
pub uninterp spec fn json_array(value: serde_json::Value) -> Option<Seq<serde_json::Value>>;

/// The characters of `value` where it is a string; nothing where it is not.
pub uninterp spec fn json_str(value: serde_json::Value) -> Option<Seq<char>>;

/// `value` as a number where it is an integer between zero and `u64::MAX`;
/// nothing where it is not.
pub uninterp spec fn json_number(value: serde_json::Value) -> Option<u64>;

/// Whether `document` holds a value at `pointer`.
pub open spec fn json_has(document: serde_json::Value, pointer: Seq<char>) -> bool {
    json_at(document, pointer) is Some
}

/// The number of elements of the array at `pointer`; nothing where
/// `document` holds no array there.
pub open spec fn json_len(document: serde_json::Value, pointer: Seq<char>) -> Option<nat> {
    match json_at(document, pointer) {
        Some(value) => match json_array(value) {
            Some(elements) => Some(elements.len()),
            None => None,
        },
        None => None,
    }
}

/// The string at `pointer`; nothing where `document` holds no string there.
pub open spec fn json_text(document: serde_json::Value, pointer: Seq<char>) -> Option<Seq<char>> {
    match json_at(document, pointer) {
        Some(value) => json_str(value),
        None => None,
    }
}

/// The number at `pointer`; nothing where `document` holds no integer
/// between zero and `u64::MAX` there.
pub open spec fn json_u64(document: serde_json::Value, pointer: Seq<char>) -> Option<u64> {
    match json_at(document, pointer) {
        Some(value) => json_number(value),
        None => None,
    }
}

/// Calls `serde_json::from_str` for a `Value`. Whether it succeeds, and with
/// which document, depends on `text` alone.
#[verifier::external_body]
pub(crate) fn parse_document(text: &str) -> (parsed: Result<serde_json::Value, serde_json::Error>)
    ensures
        match parsed {
            Ok(document) => json_document(text@) == Some(document),
            Err(_) => json_document(text@) is None,
        },
{
    serde_json::from_str::<serde_json::Value>(text)
}

/// Calls `Value::pointer`: the value that the pointer leads to, if any.
#[verifier::external_body]
fn value_at<'a>(document: &'a serde_json::Value, pointer: &str) -> (found: Option<
    &'a serde_json::Value,
>)
    ensures
        match found {
            Some(value) => json_at(*document, pointer@) == Some(*value),
            None => json_at(*document, pointer@) is None,
        },
{
    document.pointer(pointer)
}

/// Calls `Value::as_array`: the vector of an array, nothing for any other
/// value.
#[verifier::external_body]
fn value_as_array<'a>(value: &'a serde_json::Value) -> (elements: Option<
    &'a Vec<serde_json::Value>,
>)
    ensures
        match elements {
            Some(list) => json_array(*value) == Some(list@),
            None => json_array(*value) is None,
        },
{
    value.as_array()
}

/// Calls `Value::as_str`: the text of a string, nothing for any other value.
#[verifier::external_body]
fn value_as_str<'a>(value: &'a serde_json::Value) -> (text: Option<&'a str>)
    ensures
        match text {
            Some(s) => json_str(*value) == Some(s@),
            None => json_str(*value) is None,
        },
{
    value.as_str()
}

/// Calls `Value::as_u64`: a number that is an integer from zero to
/// `u64::MAX`, nothing for any other value.
#[verifier::external_body]
fn value_as_u64(value: &serde_json::Value) -> (number: Option<u64>)
    ensures
        number == json_number(*value),
{
    value.as_u64()
}

/// Whether `document` holds a value at `pointer`.
pub fn has_at(document: &serde_json::Value, pointer: &str) -> (found: bool)
    ensures
        found == json_has(*document, pointer@),
{
    value_at(document, pointer).is_some()
}

/// The number of elements of the array at `pointer`.
pub fn len_at(document: &serde_json::Value, pointer: &str) -> (len: Option<usize>)
    ensures
        match len {
            Some(n) => json_len(*document, pointer@) == Some(n as nat),
            None => json_len(*document, pointer@) is None,
        },
{
    match value_at(document, pointer) {
        Some(value) => match value_as_array(value) {
            Some(elements) => Some(elements.len()),
            None => None,
        },
        None => None,
    }
}

/// A copy of the string at `pointer`.
pub fn text_at(document: &serde_json::Value, pointer: &str) -> (text: Option<String>)
    ensures
        match text {
            Some(s) => json_text(*document, pointer@) == Some(s@),
            None => json_text(*document, pointer@) is None,
        },
{
    match value_at(document, pointer) {
        Some(value) => match value_as_str(value) {
            Some(s) => Some(String::from_str(s)),
            None => None,
        },
        None => None,
    }
}

/// The number at `pointer`.
pub fn u64_at(document: &serde_json::Value, pointer: &str) -> (number: Option<u64>)
    ensures
        number == json_u64(*document, pointer@),
{
    match value_at(document, pointer) {
        Some(value) => value_as_u64(value),
        None => None,
    }
}

} // verus!
