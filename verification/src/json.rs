//! JSON documents, read and written by `serde_json`.
use vstd::prelude::*;

pub use serde_json::Value as JsonDocument;
use serde_json::Error as JsonError;

use crate::text::{fenced_json, fenced_json_text};

verus! {

#[verifier::external_type_specification]
#[verifier::external_body]
pub struct ExJsonValue(JsonDocument);

#[verifier::external_type_specification]
#[verifier::external_body]
pub struct ExJsonError(JsonError);

/// `serde_json::Value` derives `Clone`: a clone is the same value.
pub assume_specification[ <JsonDocument as Clone>::clone ](v: &JsonDocument) -> (r: JsonDocument)
    ensures
        r == *v,
;

/// Whether `serde_json::from_str::<serde_json::Value>` accepts the text as a JSON document.
pub uninterp spec fn json_parses(text: Seq<char>) -> bool;

/// The document that `serde_json::from_str::<serde_json::Value>` reads from a text it accepts.
pub uninterp spec fn json_read(text: Seq<char>) -> JsonDocument;

/// The error that `serde_json::from_str::<serde_json::Value>` gives on a text it refuses.
pub uninterp spec fn json_read_error(text: Seq<char>) -> JsonError;

/// The compact text that `serde_json::to_string` writes for a document.
pub uninterp spec fn json_text(v: JsonDocument) -> Seq<char>;

/// The message of an error of `serde_json`, as its `Display` writes it.
pub uninterp spec fn json_error_message(e: JsonError) -> Seq<char>;

/// Reads a JSON document with `serde_json::from_str`: it succeeds exactly on the texts that
/// `json_parses` holds of, with the document `json_read` names, and otherwise gives the error
/// that `json_read_error` names.
#[verifier::external_body]
pub(crate) fn parse_json(text: &str) -> (r: Result<JsonDocument, JsonError>)
    ensures
        r is Ok <==> json_parses(text@),
        r matches Ok(v) ==> v == json_read(text@),
        r matches Err(e) ==> e == json_read_error(text@),
{
    serde_json::from_str::<JsonDocument>(text)
}

/// Writes a JSON value as compact text with `serde_json::to_string`. Its documentation says
/// it fails only where a `Serialize` impl fails or a map has keys that are not strings; a
/// `JsonDocument` has neither, so it does not fail, and it writes the text `json_text` names.
#[verifier::external_body]
pub(crate) fn json_to_string(v: &JsonDocument) -> (r: Result<String, JsonError>)
    ensures
        r is Ok,
        r matches Ok(t) ==> t@ == json_text(*v),
{
    serde_json::to_string(v)
}

/// The message of a `serde_json` error, as its `Display` impl writes it.
#[verifier::external_body]
pub(crate) fn error_message(e: &JsonError) -> (r: String)
    ensures
        r@ == json_error_message(*e),
{
    e.to_string()
}

/// The strings of the array that a document's member of the given key holds, as
/// `serde_json::Value::get` and the `Value::Array` and `Value::String` variants give them;
/// `None` where the document has no such member, or it is not an array, or an item of it is
/// not a string.
pub uninterp spec fn json_string_array(doc: JsonDocument, key: Seq<char>) -> Option<Seq<Seq<char>>>;

/// Reads the member of the given key of a document with `serde_json::Value::get`, and the
/// strings of the array it holds, telling the `Array` and `String` variants apart.
#[verifier::external_body]
pub(crate) fn string_array_field(v: &JsonDocument, key: &str) -> (r: Option<Vec<String>>)
    ensures
        match json_string_array(*v, key@) {
            Some(items) => r matches Some(names) && names@.map_values(|s: String| s@) == items,
            None => r is None,
        },
{
    match v.get(key) {
        Some(serde_json::Value::Array(items)) => {
            let mut names = Vec::new();
            for item in items {
                match item {
                    serde_json::Value::String(s) => names.push(s.clone()),
                    _ => return None,
                }
            }
            Some(names)
        },
        _ => None,
    }
}

/// Reads the JSON document of a message: the content of its first block fenced by three
/// backticks on each side, trimmed, or else the whole message.
pub fn extract_json(message: &str) -> (r: Result<JsonDocument, JsonError>)
    ensures
        r is Ok <==> json_parses(fenced_json(message@)),
        r matches Ok(v) ==> v == json_read(fenced_json(message@)),
        r matches Err(e) ==> e == json_read_error(fenced_json(message@)),
{
    let text = fenced_json_text(message);
    parse_json(text.as_str())
}

} // verus!
