//! Pretty-printed JSON text for a [`Document`], written by `serde_json`.

use crate::record::{Document, DocumentView, Record, Scalar};
use vstd::prelude::*;

verus! {

/// The error of `serde_json`, carried through as an opaque value.
#[verifier::external_type_specification]
#[verifier::external_body]
pub struct ExJsonError(serde_json::Error);

/// The indented JSON text that `serde_json::to_string_pretty` writes for a
/// document, or `None` where it reports an error for it.
///
/// The text is not spelled out here; it is whatever the JSON writer gives.
/// It depends on the document alone: a record goes to the writer as a JSON
/// object that holds the fields in their order, a list as a JSON array of
/// such objects.
pub uninterp spec fn pretty_json(doc: DocumentView) -> Option<Seq<char>>;

/// Rendering a document failed.
#[derive(Debug, Clone, Copy, PartialEq, Eq)]
pub struct RenderError;

/// Calls `serde_json::to_string_pretty` on the `serde_json::Value` that
/// mirrors `doc`. A number or a text becomes a value by `Value::from`; a
/// record becomes a `Value::Object`, its `serde_json::Map` collected from
/// the fields in their order; a list becomes a `Value::Array` of such
/// objects. With the crate's `preserve_order` feature the map keeps the
/// order in which it was filled, so nothing but the document decides the
/// text.
///
/// Taken on trust, not proved: the outcome is the one that [`pretty_json`]
/// names for the document, the text on success and `None` on an error.
#[verifier::external_body]
fn to_string_pretty(doc: &Document) -> (out: Result<String, serde_json::Error>)
    ensures
        match out {
            Ok(text) => pretty_json(doc@) == Some(text@),
            Err(_) => pretty_json(doc@) is None,
        },
{
    let object = |record: &Record| {
        let entries = record.fields.iter().map(|field| match &field.value {
            Scalar::Int(n) => (field.name.clone(), serde_json::Value::from(*n)),
            Scalar::Text(s) => (field.name.clone(), serde_json::Value::from(s.as_str())),
        });
        serde_json::Value::Object(entries.collect())
    };
    let value = match doc {
        Document::Record(record) => object(record),
        Document::List(records) => serde_json::Value::Array(records.iter().map(object).collect()),
    };
    serde_json::to_string_pretty(&value)
}

/// Writes `doc` as indented JSON text. Fails where, and only where, the JSON
/// writer reports an error for the document.
pub fn render(doc: &Document) -> (out: Result<String, RenderError>)
    ensures
        out is Ok <==> pretty_json(doc@) is Some,
        out matches Ok(text) ==> pretty_json(doc@) == Some(text@),
{
    match to_string_pretty(doc) {
        Ok(text) => Ok(text),
        Err(_) => Err(RenderError),
    }
}

} // verus!
