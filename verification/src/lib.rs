use vstd::prelude::*;

pub mod decode;
pub mod decode_doc;
pub mod document;
pub mod json;
pub mod laws;
pub mod markdown;
pub mod model;
pub mod parse;
pub mod render;
pub mod text;

pub use crate::decode::SchemaErrKind;
pub use crate::decode::SchemaError;
pub use crate::markdown::extract_first_lifetime;
pub use crate::model::RustDoc;
pub use crate::model::RustDocItem;

use crate::decode_doc::spec_decode_doc;
use crate::json::JsonV;
use crate::json::JsonValue;
use crate::model::DocV;

verus! {

/// Reads a whole documentation index out of a JSON text: the text is
/// parsed into a JSON value, and that value is decoded against the
/// schema, with every shape decision made once. A text that is not
/// well-formed JSON is reported as a schema error on the document with
/// a null sub-document; a sub-document that matches no known shape is
/// reported with its grammar production, the offending sub-document,
/// and the identifier of the item it stood in.
pub fn parse_document(text: &str) -> (r: Result<RustDoc, SchemaError>)
    ensures
        (match crate::parse::parsed_json(text@) {
            Some(jv) => match r {
                Ok(d) => spec_decode_doc(jv) == Ok::<DocV, crate::decode::SchemaErrV>(
                    d.deep_view(),
                ),
                Err(e) => spec_decode_doc(jv) == Err::<DocV, crate::decode::SchemaErrV>(
                    e.deep_view(),
                ),
            },
            None => r matches Err(e) && e.deep_view() == crate::decode::serr(
                SchemaErrKind::Document,
                JsonV::Null,
            ),
        }),
{
    match crate::parse::parse_json(text) {
        Some(j) => crate::decode_doc::decode_doc(&j),
        None => Err(
            SchemaError {
                kind: SchemaErrKind::Document,
                offending: JsonValue::Null,
                item_id: None,
            },
        ),
    }
}

/// Parses a JSON text and renders it as a Markdown document in one
/// step: success exactly when the text parses and decodes, with the
/// rendering of the decoded index; the parse or decode error otherwise.
pub fn render_docs(text: &str) -> (r: Result<String, SchemaError>)
    ensures
        (match r {
            Ok(md) => {
                &&& crate::parse::parsed_json(text@) matches Some(jv)
                &&& spec_decode_doc(jv) matches Ok(d)
                &&& md@ == crate::markdown::spec_render_doc(d)
            },
            Err(e) => match crate::parse::parsed_json(text@) {
                Some(jv) => spec_decode_doc(jv) == Err::<DocV, crate::decode::SchemaErrV>(
                    e.deep_view(),
                ),
                None => e.deep_view() == crate::decode::serr(
                    SchemaErrKind::Document,
                    JsonV::Null,
                ),
            },
        }),
{
    match parse_document(text) {
        Ok(doc) => {
            let md = doc.to_markdown();
            Ok(md)
        },
        Err(e) => Err(e),
    }
}

} // verus!
