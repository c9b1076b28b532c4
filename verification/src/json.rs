//! JSON payloads.
//!
//! A payload is parsed once, by `serde_json`, and carried as the value that
//! the parser made. The library reads text fields of its top level and
//! prints it; it looks no deeper.

use vstd::prelude::*;

verus! {

/// A parsed JSON document, as `serde_json` defines it.
#[verifier::external_type_specification]
#[verifier::external_body]
pub struct ExValue(serde_json::Value);

/// The document that the bytes spell out, or `None` where they are not one
/// JSON document.
pub uninterp spec fn parsed_json(bytes: Seq<u8>) -> Option<serde_json::Value>;

/// The text under `key` where `value` is an object that holds a text there,
/// and `None` in every other case.
pub uninterp spec fn json_text_at(value: serde_json::Value, key: Seq<char>) -> Option<Seq<char>>;

/// The document as compact JSON text.
pub uninterp spec fn json_printed(value: serde_json::Value) -> Seq<char>;

/// `Value::clone` makes a document equal to the one it copies.
pub assume_specification[ <serde_json::Value as Clone>::clone ](value: &serde_json::Value) -> (copy:
    serde_json::Value)
    ensures
        copy == *value,
;

/// Parses a document with `serde_json::from_slice`. The outcome depends on
/// the bytes alone; an error of the parser is handed on as `None`.
#[verifier::external_body]
pub(crate) fn parse_json(bytes: &[u8]) -> (value: Option<serde_json::Value>)
    ensures
        value == parsed_json(bytes@),
{
    serde_json::from_slice::<serde_json::Value>(bytes).ok()
}

/// Looks a key up with `Value::get` and reads the text there with
/// `Value::as_str`: `None` where the value is no object, lacks the key, or
/// holds something other than text under it.
#[verifier::external_body]
pub(crate) fn json_string_field(value: &serde_json::Value, key: &str) -> (text: Option<String>)
    ensures
        text is Some <==> json_text_at(*value, key@) is Some,
        text matches Some(found) ==> Some(found@) == json_text_at(*value, key@),
{
    value.get(key).and_then(|field| field.as_str()).map(|text| text.to_owned())
}

/// Prints the document with its `Display`, which writes compact JSON.
#[verifier::external_body]
pub(crate) fn json_text(value: &serde_json::Value) -> (text: String)
    ensures
        text@ == json_printed(*value),
{
    value.to_string()
}

} // verus!
