//! What the library reads from JSON documents, and the one thing it asks
//! of a JSON writer. Parsing and quoting are `serde_json`'s; the items of
//! this module give its functions contracts that are believed, not proved,
//! over a mathematical model of a document.

use vstd::prelude::*;
use crate::text::text_view;

verus! {

/// A parsed JSON document. Its inside is not visible to the proofs: what
/// they know of one comes from the functions below.
#[verifier::external_type_specification]
#[verifier::external_body]
pub struct ExJsonValue(serde_json::Value);

/// The error with which `serde_json` refuses a text.
#[verifier::external_type_specification]
#[verifier::external_body]
pub struct ExJsonError(serde_json::Error);

/// A JSON document as a mathematical value.
pub enum JsonDoc {
    Null,
    Bool(bool),
    /// A number that is an integer within the range of `i64`.
    Integer(i64),
    /// Any other number.
    Number,
    Text(Seq<char>),
    Array(Seq<JsonDoc>),
    Object(Map<Seq<char>, JsonDoc>),
}

/// The document that a `Value` holds.
pub uninterp spec fn json_doc(value: serde_json::Value) -> JsonDoc;

/// The document that `serde_json::from_str` reads from `text`, where it
/// accepts it.
pub uninterp spec fn json_parsed(text: Seq<char>) -> Option<JsonDoc>;

/// `text` as `serde_json` writes a JSON string: between double quotes, with
/// the escapes that JSON asks for.
pub uninterp spec fn json_quoted(text: Seq<char>) -> Seq<char>;

/// The documents that a sequence of `Value`s holds, in the same order.
pub open spec fn json_docs(values: Seq<serde_json::Value>) -> Seq<JsonDoc> {
    values.map_values(|value: serde_json::Value| json_doc(value))
}

/// The member of an object under `key`; none where the document is no
/// object or has no such key.
pub open spec fn doc_member(doc: JsonDoc, key: Seq<char>) -> Option<JsonDoc> {
    match doc {
        JsonDoc::Object(members) => if members.contains_key(key) {
            Some(members[key])
        } else {
            None
        },
        _ => None,
    }
}

/// The text of a string; none for any other document.
pub open spec fn doc_text(doc: JsonDoc) -> Option<Seq<char>> {
    match doc {
        JsonDoc::Text(text) => Some(text),
        _ => None,
    }
}

/// The value of an integer within the range of `i64`; none for any other
/// document.
pub open spec fn doc_integer(doc: JsonDoc) -> Option<i64> {
    match doc {
        JsonDoc::Integer(number) => Some(number),
        _ => None,
    }
}

/// The elements of an array; none for any other document.
pub open spec fn doc_elements(doc: JsonDoc) -> Option<Seq<JsonDoc>> {
    match doc {
        JsonDoc::Array(elements) => Some(elements),
        _ => None,
    }
}

/// The text of the member under `key`, where there is one and it is a
/// string.
pub open spec fn text_member(doc: JsonDoc, key: Seq<char>) -> Option<Seq<char>> {
    match doc_member(doc, key) {
        Some(member) => doc_text(member),
        None => None,
    }
}

/// The number of the member under `key`, where there is one and it is an
/// integer within the range of `i64`.
pub open spec fn integer_member(doc: JsonDoc, key: Seq<char>) -> Option<i64> {
    match doc_member(doc, key) {
        Some(member) => doc_integer(member),
        None => None,
    }
}

/// Parses `text` as one JSON document.
///
/// Trusted: calls `serde_json::from_str` for a `Value`. The call's result
/// depends on the text alone; it is `Ok` exactly where the text is one
/// JSON document, and the document is given the name `json_parsed`.
#[verifier::external_body]
pub(crate) fn parse(text: &str) -> (parsed: Result<serde_json::Value, serde_json::Error>)
    ensures
        parsed is Ok <==> json_parsed(text@) is Some,
        parsed matches Ok(value) ==> json_parsed(text@) == Some(json_doc(value)),
{
    serde_json::from_str::<serde_json::Value>(text)
}

/// The member of `value` under `key`.
///
/// Trusted: calls `Value::get` with a string key, which looks the key up
/// where the value is an object and gives nothing for any other value.
#[verifier::external_body]
pub(crate) fn member<'a>(value: &'a serde_json::Value, key: &str) -> (found: Option<
    &'a serde_json::Value,
>)
    ensures
        found is Some <==> doc_member(json_doc(*value), key@) is Some,
        found matches Some(inner) ==> doc_member(json_doc(*value), key@) == Some(
            json_doc(*inner),
        ),
{
    value.get(key)
}

/// The text that `value` holds.
///
/// Trusted: calls `Value::as_str`, which gives the text of a string value
/// and nothing for any other value.
#[verifier::external_body]
pub(crate) fn as_text<'a>(value: &'a serde_json::Value) -> (text: Option<&'a str>)
    ensures
        text is Some <==> doc_text(json_doc(*value)) is Some,
        text matches Some(inner) ==> doc_text(json_doc(*value)) == Some(inner@),
{
    value.as_str()
}

/// The integer that `value` holds.
///
/// Trusted: calls `Value::as_i64`, which gives the number where the value
/// is an integer that fits an `i64`, and nothing for any other value.
#[verifier::external_body]
pub(crate) fn as_integer(value: &serde_json::Value) -> (number: Option<i64>)
    ensures
        number == doc_integer(json_doc(*value)),
{
    value.as_i64()
}

/// The elements that `value` holds.
///
/// Trusted: calls `Value::as_array`, which gives the elements of an array,
/// in their order, and nothing for any other value.
#[verifier::external_body]
pub(crate) fn as_elements<'a>(value: &'a serde_json::Value) -> (elements: Option<
    &'a Vec<serde_json::Value>,
>)
    ensures
        elements is Some <==> doc_elements(json_doc(*value)) is Some,
        elements matches Some(inner) ==> doc_elements(json_doc(*value)) == Some(
            json_docs(inner@),
        ),
{
    value.as_array()
}

/// `text` as a JSON string.
///
/// Trusted: makes a `Value::String` of the text and formats it with the
/// crate's `Display`, which writes the compact form. The result depends on
/// the text alone and is given the name `json_quoted`.
#[verifier::external_body]
pub(crate) fn quoted(text: &str) -> (written: String)
    ensures
        written@ == json_quoted(text@),
{
    serde_json::Value::String(text.to_owned()).to_string()
}

/// The text of the member of `value` under `key`, where there is one and
/// it is a string.
pub fn text_of(value: &serde_json::Value, key: &str) -> (text: Option<String>)
    ensures
        text_view(text) == text_member(json_doc(*value), key@),
{
    match member(value, key) {
        Some(inner) => match as_text(inner) {
            Some(text) => Some(text.to_owned()),
            None => None,
        },
        None => None,
    }
}

/// The number of the member of `value` under `key`, where there is one
/// and it is an integer within the range of `i64`.
pub fn integer_of(value: &serde_json::Value, key: &str) -> (number: Option<i64>)
    ensures
        number == integer_member(json_doc(*value), key@),
{
    match member(value, key) {
        Some(inner) => as_integer(inner),
        None => None,
    }
}

} // verus!
