//! The value of a multiple-line field: a rich-text document.

use super::json_codec::JsonCodec;
use crate::json::{is_object, json_model, JsonModel};
use vstd::prelude::*;

verus! {

/// A rich-text document. It is kept as it was read and is not interpreted.
#[derive(Debug, Clone, PartialEq, Eq)]
pub struct ProsemirrorState {
    pub doc: serde_json::Value,
}

/// The error of the rich-text codec: the document is not a JSON object.
#[derive(Debug, PartialEq, Eq)]
pub struct ParseProsemirrorStateError;

impl View for ProsemirrorState {
    type V = JsonModel;

    /// The document itself.
    open spec fn view(&self) -> JsonModel {
        json_model(self.doc)
    }
}

impl JsonCodec for ProsemirrorState {
    type Err = ParseProsemirrorStateError;

    /// Any JSON object is accepted as it is; nothing else is.
    open spec fn decoded(json: JsonModel) -> Result<JsonModel, ParseProsemirrorStateError> {
        if json is Object {
            Ok(json)
        } else {
            Err(ParseProsemirrorStateError)
        }
    }

    open spec fn encoded(value: JsonModel) -> JsonModel {
        value
    }

    open spec fn encodable(&self) -> bool {
        true
    }

    open spec fn canonical(&self) -> bool {
        json_model(self.doc) is Object
    }

    fn from_json(value: &serde_json::Value) -> (r: Result<Self, ParseProsemirrorStateError>) {
        if !is_object(value) {
            return Err(ParseProsemirrorStateError);
        }
        Ok(ProsemirrorState { doc: value.clone() })
    }

    fn to_json(&self) -> (r: serde_json::Value) {
        self.doc.clone()
    }

    proof fn lemma_encoded_is_not_null(&self) {
    }

    proof fn lemma_round_trip(&self) {
    }
}

} // verus!
