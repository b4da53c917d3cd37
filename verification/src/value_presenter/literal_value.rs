//! The interface shared by the values of all field kinds.

use super::field_type::FieldType;
use crate::json::{json_model, JsonModel};
use vstd::prelude::*;

verus! {

/// The error of a field value codec: the document is not a value of the kind.
#[derive(Debug, Clone, PartialEq, Eq)]
pub struct ParseLiteralValueError;

/// Another name for [`ParseLiteralValueError`].
pub type ParseLiteralFieldValueError = ParseLiteralValueError;

/// The value of a field of one kind: present, or nil.
///
/// The implementor's view is the mathematical value it stands for. `decoded`
/// and `encoded` say, over document models, what the two directions compute;
/// `from_json` and `to_json` are the executable functions and are held to them.
pub trait LiteralValue: Sized + View {
    /// Whether a value is the nil of its kind.
    spec fn nil(value: Self::V) -> bool;

    /// The field type that values of this kind belong to.
    spec fn field_type() -> FieldType;

    /// What a document decodes to, or nothing where it is rejected.
    spec fn decoded(json: JsonModel) -> Option<Self::V>;

    /// The document that a value is written as.
    spec fn encoded(value: Self::V) -> JsonModel;

    /// Whether this value can be written out. Writing a value that cannot
    /// would stop the program, so `to_json` asks for this.
    spec fn encodable(&self) -> bool;

    /// Whether this value is well formed: one that a decoder can give, and that
    /// reading its own document gives back.
    spec fn canonical(&self) -> bool;

    /// Whether the value is nil.
    fn is_nil(&self) -> (r: bool)
        ensures
            r == Self::nil(self@),
    ;

    /// Decodes a document. `null` decodes to nil. What is decoded is well
    /// formed and can be written out.
    fn from_json(value: &serde_json::Value) -> (r: Result<Self, ParseLiteralValueError>)
        ensures
            match r {
                Ok(decoded) => Self::decoded(json_model(*value)) == Some(decoded@)
                    && decoded.encodable() && decoded.canonical(),
                Err(_) => Self::decoded(json_model(*value)) is None,
            },
    ;

    /// Encodes the value as a document. Nil is written as `null`.
    fn to_json(&self) -> (r: serde_json::Value)
        requires
            self.encodable(),
        ensures
            json_model(r) == Self::encoded(self@),
    ;

    /// The field type of the value.
    fn get_field_type(&self) -> (r: FieldType)
        ensures
            r == Self::field_type(),
    ;

    /// Null handling: `null` decodes, and decodes to nil.
    proof fn lemma_null_is_nil()
        ensures
            Self::decoded(JsonModel::Null) matches Some(value) && Self::nil(value),
    ;

    /// Round trip: decoding the document of a canonical value gives the value
    /// back.
    proof fn lemma_round_trip(&self)
        requires
            self.canonical(),
        ensures
            Self::decoded(Self::encoded(self@)) == Some(self@),
    ;
}

} // verus!
