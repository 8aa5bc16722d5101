//! Reading JSON with `serde_json`. What the two functions that call it do is
//! taken on trust, and each says what it takes; the functions of `Document`
//! at the end are proved from that.

use vstd::prelude::*;
use crate::document::{Document, DocumentView};

verus! {

/// The JSON value of `serde_json`.
#[verifier::external_type_specification]
#[verifier::external_body]
pub struct ExJsonValue(serde_json::Value);

/// What `serde_json::from_str` makes of `text`: the tree that it writes, or
/// the message of the error where it is no JSON.
pub uninterp spec fn json_reading(text: Seq<char>) -> Result<DocumentView, Seq<char>>;

/// The tree that a JSON value holds: its strings, arrays and objects as
/// they are, an object's entries in the order in which the value walks
/// them, a number as the text that `serde_json` writes it as.
pub uninterp spec fn json_tree(value: serde_json::Value) -> DocumentView;

/// `serde_json::from_str`, for a value of any shape. Trusted: the outcome is
/// a function of `text` alone.
#[verifier::external_body]
fn read_json(text: &str) -> (read: Result<serde_json::Value, String>)
    ensures
        read matches Ok(value) ==> (json_reading(text@) matches Ok(doc) && doc == json_tree(value)),
        read matches Err(message) ==> (json_reading(text@) matches Err(reported) && reported
            == message@),
{
    serde_json::from_str::<serde_json::Value>(text).map_err(|error| error.to_string())
}

/// Takes a `serde_json::Value` apart by its variants and copies it into a
/// document, a number by `Number`'s `to_string`, the entries of an object
/// as `Map::iter` walks them. Trusted: the document stands for the tree
/// that the value holds.
#[verifier::external_body]
fn document_of(value: &serde_json::Value) -> (doc: Document)
    ensures
        doc@ == json_tree(*value),
{
    match value {
        serde_json::Value::Null => Document::Null,
        serde_json::Value::Bool(flag) => Document::Bool(*flag),
        serde_json::Value::Number(number) => Document::Number(number.to_string()),
        serde_json::Value::String(text) => Document::String(text.clone()),
        serde_json::Value::Array(items) => Document::Array(items.iter().map(document_of).collect()),
        serde_json::Value::Object(entries) => Document::Object(
            entries.iter().map(|(key, item)| (key.clone(), document_of(item))).collect(),
        ),
    }
}

impl Document {
    /// The document of a JSON value.
    pub fn from_json(value: &serde_json::Value) -> (doc: Document)
        ensures
            doc@ == json_tree(*value),
    {
        document_of(value)
    }

    /// Reads a JSON text into a document; a text that is no JSON gives the
    /// message of the failure.
    pub fn parse_json(text: &str) -> (read: Result<Document, String>)
        ensures
            match json_reading(text@) {
                Ok(tree) => read matches Ok(doc) && doc@ == tree,
                Err(reported) => read matches Err(message) && message@ == reported,
            },
    {
        match read_json(text) {
            Ok(value) => Ok(document_of(&value)),
            Err(message) => Err(message),
        }
    }
}

} // verus!
