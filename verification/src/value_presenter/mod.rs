//! Presenters: decoded field values together with their field type.

pub mod error;
pub mod field_type;
pub mod literal_list_value;
pub mod literal_naive_value;
pub mod literal_value;
pub mod literal_value_presenter;
pub mod value;

use crate::json::{as_str, get, is_object, json_model, JsonModel};
use crate::text::text_eq;
use error::{DecodeError, DecodeErrorView};
use field_type::FieldType;
use literal_value_presenter::{lemma_member_names_differ, LiteralValuePresenter, LiteralView};
use vstd::prelude::*;

verus! {

/// A presenter of any presenter type. Literal presenters are the only type so
/// far; the `type` member of a presenter document tells the types apart.
#[derive(Debug, Clone, PartialEq)]
pub enum ValuePresenter {
    Literal(LiteralValuePresenter),
}

/// The mathematical content of a [`ValuePresenter`].
pub enum ValuePresenterView {
    Literal(LiteralView),
}

impl ValuePresenterView {
    /// The field type of the presenter.
    pub open spec fn field_type(self) -> FieldType {
        match self {
            ValuePresenterView::Literal(literal) => literal.field_type(),
        }
    }

    /// The document that the presenter is written as.
    pub open spec fn encoded(self) -> JsonModel {
        match self {
            ValuePresenterView::Literal(literal) => literal.encoded(),
        }
    }

    /// Whether a text names the literal presenter type.
    pub open spec fn is_literal_type(name: Seq<char>) -> bool {
        name == "literal"@ || name == "LITERAL"@
    }

    /// What a document decodes to as a presenter, or the error that rejects
    /// it.
    pub open spec fn decoded(json: JsonModel) -> Result<ValuePresenterView, DecodeErrorView> {
        if !(json is Object) {
            Err(DecodeErrorView::InvalidJsonObject(json))
        } else {
            match json.member("type"@) {
                Some(JsonModel::String(name)) => if Self::is_literal_type(name) {
                    match LiteralView::decoded(json) {
                        Ok(literal) => Ok(ValuePresenterView::Literal(literal)),
                        Err(error) => Err(error),
                    }
                } else {
                    Err(DecodeErrorView::UnsupportedType(json))
                },
                Some(_) => Err(DecodeErrorView::UnsupportedType(json)),
                None => Err(DecodeErrorView::NoType),
            }
        }
    }
}

impl View for ValuePresenter {
    type V = ValuePresenterView;

    open spec fn view(&self) -> ValuePresenterView {
        match self {
            ValuePresenter::Literal(literal) => ValuePresenterView::Literal(literal@),
        }
    }
}

impl ValuePresenter {
    /// Whether the presenter can be written out.
    pub open spec fn encodable(&self) -> bool {
        match self {
            ValuePresenter::Literal(literal) => literal.encodable(),
        }
    }

    /// Whether the presenter is well formed.
    pub open spec fn canonical(&self) -> bool {
        match self {
            ValuePresenter::Literal(literal) => literal.canonical(),
        }
    }

    /// Whether the presenter can be written out. Presenters that were decoded
    /// always can.
    pub fn can_encode(&self) -> (r: bool)
        ensures
            r == self.encodable(),
    {
        match self {
            ValuePresenter::Literal(literal) => literal.can_encode(),
        }
    }

    /// The field type of the presenter.
    pub fn get_field_type(&self) -> (r: FieldType)
        ensures
            r == self@.field_type(),
    {
        match self {
            ValuePresenter::Literal(literal_value_presenter) => {
                literal_value_presenter.get_field_type()
            },
        }
    }

    /// Decodes a presenter document.
    ///
    /// The document must be an object whose `type` member is the string
    /// `literal` or `LITERAL`; the rest is read as a literal presenter.
    pub fn from_json(json: &serde_json::Value) -> (r: Result<Self, DecodeError>)
        ensures
            match r {
                Ok(presenter) => ValuePresenterView::decoded(json_model(*json)) == Ok::<
                    ValuePresenterView,
                    DecodeErrorView,
                >(presenter@) && presenter.encodable() && presenter.canonical(),
                Err(error) => ValuePresenterView::decoded(json_model(*json)) == Err::<
                    ValuePresenterView,
                    DecodeErrorView,
                >(error@),
            },
    {
        if !is_object(json) {
            return Err(DecodeError::InvalidJsonObject(json));
        }
        match get(json, "type") {
            Some(value) => match as_str(value) {
                Some(discriminator) => {
                    if text_eq(discriminator, "literal") || text_eq(discriminator, "LITERAL") {
                        match LiteralValuePresenter::from_json(json) {
                            Ok(literal_vp) => Ok(ValuePresenter::Literal(literal_vp)),
                            Err(error) => Err(error),
                        }
                    } else {
                        Err(DecodeError::UnsupportedType(json))
                    }
                },
                None => Err(DecodeError::UnsupportedType(json)),
            },
            None => Err(DecodeError::NoType),
        }
    }

    /// Encodes the presenter as a document.
    pub fn to_json(&self) -> (r: serde_json::Value)
        requires
            self.encodable(),
        ensures
            json_model(r) == self@.encoded(),
    {
        match self {
            ValuePresenter::Literal(vp) => vp.to_json(),
        }
    }

    /// Round trip: decoding the document of a well-formed presenter gives the
    /// presenter back.
    pub proof fn lemma_round_trip(&self)
        requires
            self.canonical(),
        ensures
            ValuePresenterView::decoded(self@.encoded()) == Ok::<
                ValuePresenterView,
                DecodeErrorView,
            >(self@),
    {
        lemma_member_names_differ();
        match self {
            ValuePresenter::Literal(literal) => literal.lemma_round_trip(),
        }
    }
}

} // verus!
