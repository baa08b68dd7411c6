//! The boundary with the JSON library.
//!
//! A JSON document is opaque to the proofs. What the extraction logic reads of
//! it is modelled as a sequence of rows, each a map from member name to text;
//! the wrappers below are believed to agree with that model.

use vstd::prelude::*;

verus! {

/// `serde_json::Value`, a JSON document; nothing inside it is visible to the
/// proofs.
#[verifier::external_type_specification]
#[verifier::external_body]
pub struct ExJsonValue(serde_json::Value);

/// `serde_json::Error`, why a text could not be read as JSON; nothing inside
/// it is visible to the proofs.
#[verifier::external_type_specification]
#[verifier::external_body]
pub struct ExJsonError(serde_json::Error);

/// The rows of a JSON document.
///
/// An array has one row per element, in order; any other document has none.
/// The row of an element that is an object maps the name of each member whose
/// value is a string to that string; members with other values, and elements
/// that are no objects, contribute nothing.
pub uninterp spec fn json_rows(doc: serde_json::Value) -> Seq<Map<Seq<char>, Seq<char>>>;

/// The rows of the JSON document that a text spells, or nothing where the text
/// is not well-formed JSON.
pub uninterp spec fn json_text_rows(text: Seq<char>) -> Option<Seq<Map<Seq<char>, Seq<char>>>>;

/// `serde_json::from_str`, reading a whole document into a `serde_json::Value`.
/// Believed: it succeeds exactly on the texts that [`json_text_rows`] gives rows
/// for, and the document it returns has those rows; and the text `[]` is read
/// as an array without elements.
#[verifier::external_body]
pub(crate) fn json_from_text(text: &str) -> (r: Result<serde_json::Value, serde_json::Error>)
    ensures
        match r {
            Ok(doc) => json_text_rows(text@) == Some(json_rows(doc)),
            Err(_) => json_text_rows(text@) is None,
        },
        text@ == "[]"@ ==> r is Ok && json_rows(r->Ok_0).len() == 0,
{
    serde_json::from_str(text)
}

/// `serde_json::Value::as_array` and the length of the vector it returns.
/// Believed: for an array, the number of its rows; for any other document,
/// nothing, and such a document has no rows.
#[verifier::external_body]
pub(crate) fn json_row_count(doc: &serde_json::Value) -> (n: Option<usize>)
    ensures
        match n {
            Some(count) => count == json_rows(*doc).len(),
            None => json_rows(*doc).len() == 0,
        },
{
    doc.as_array().map(|items| items.len())
}

/// `serde_json::Value::get`, by position and then by member name, followed by
/// `serde_json::Value::as_str`. Believed: the text that row `row` of the
/// document holds under `key`, or nothing where the row has no such text.
#[verifier::external_body]
pub(crate) fn json_row_text(doc: &serde_json::Value, row: usize, key: &str) -> (r: Option<String>)
    requires
        row < json_rows(*doc).len(),
    ensures
        match r {
            Some(text) => json_rows(*doc)[row as int].contains_key(key@) && json_rows(
                *doc,
            )[row as int][key@] == text@,
            None => !json_rows(*doc)[row as int].contains_key(key@),
        },
{
    doc.get(row).and_then(|item| item.get(key)).and_then(|v| v.as_str()).map(|s| s.to_string())
}

} // verus!
