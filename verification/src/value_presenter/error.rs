//! The errors of decoding and matching presenters.

use super::field_type::FieldType;
use super::{ValuePresenter, ValuePresenterView};
use crate::json::{json_model, JsonModel};
use vstd::prelude::*;

verus! {

/// Why a presenter document, or a list of them, was rejected.
///
/// An error that is about a document holds that document, so that the caller
/// can show what was sent.
#[derive(Debug)]
pub enum DecodeError<'a> {
    /// The presenter document has no `type` member.
    NoType,
    /// The `type` member does not name a presenter type.
    UnsupportedType(&'a serde_json::Value),
    /// The presenter document has no `field_type` member.
    NoFieldType,
    /// The `field_type` member does not spell a field type.
    UnsupportedFieldType(&'a serde_json::Value),
    /// The `value` member is not a value of the field type.
    InvalidValue { field_type: FieldType, value: &'a serde_json::Value },
    /// A document that must be a JSON object, or a list that must be a JSON
    /// array, is something else.
    InvalidJsonObject(&'a serde_json::Value),
    /// A presenter was decoded, but is not of the field type that the caller
    /// expects at its position.
    MismatchedFieldType { field_type: FieldType, value_presenter: ValuePresenter },
}

/// The mathematical content of a [`DecodeError`].
pub enum DecodeErrorView {
    NoType,
    UnsupportedType(JsonModel),
    NoFieldType,
    UnsupportedFieldType(JsonModel),
    InvalidValue { field_type: FieldType, value: JsonModel },
    InvalidJsonObject(JsonModel),
    MismatchedFieldType { field_type: FieldType, value_presenter: ValuePresenterView },
}

impl<'a> View for DecodeError<'a> {
    type V = DecodeErrorView;

    open spec fn view(&self) -> DecodeErrorView {
        match self {
            DecodeError::NoType => DecodeErrorView::NoType,
            DecodeError::UnsupportedType(json) => DecodeErrorView::UnsupportedType(
                json_model(**json),
            ),
            DecodeError::NoFieldType => DecodeErrorView::NoFieldType,
            DecodeError::UnsupportedFieldType(json) => DecodeErrorView::UnsupportedFieldType(
                json_model(**json),
            ),
            DecodeError::InvalidValue { field_type, value } => DecodeErrorView::InvalidValue {
                field_type: *field_type,
                value: json_model(**value),
            },
            DecodeError::InvalidJsonObject(json) => DecodeErrorView::InvalidJsonObject(
                json_model(**json),
            ),
            DecodeError::MismatchedFieldType {
                field_type,
                value_presenter,
            } => DecodeErrorView::MismatchedFieldType {
                field_type: *field_type,
                value_presenter: value_presenter@,
            },
        }
    }
}

} // verus!
