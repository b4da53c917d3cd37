//! The codec interface shared by the values that fields hold.

use crate::json::{json_model, JsonModel};
use vstd::prelude::*;

verus! {

/// A value with a JSON form.
///
/// The implementor's view is the mathematical value it stands for. `decoded`
/// and `encoded` say, over document models, what the two directions compute;
/// `from_json` and `to_json` are the executable functions and are held to them.
pub trait JsonCodec: Sized + View {
    type Err;

    /// What a document decodes to: a value, or the reason it is rejected.
    spec fn decoded(json: JsonModel) -> Result<Self::V, Self::Err>;

    /// The document that a value is written as.
    spec fn encoded(value: Self::V) -> JsonModel;

    /// Whether this value can be written out. Writing a value that cannot
    /// would stop the program, so `to_json` asks for this.
    spec fn encodable(&self) -> bool;

    /// Whether this value is well formed: one that a decoder can give, and that
    /// reading its own document gives back.
    spec fn canonical(&self) -> bool;

    /// Decodes a document. What is decoded is well formed and can be written
    /// out.
    fn from_json(value: &serde_json::Value) -> (r: Result<Self, Self::Err>)
        ensures
            match r {
                Ok(decoded) => Self::decoded(json_model(*value)) == Ok::<Self::V, Self::Err>(
                    decoded@,
                ) && decoded.encodable() && decoded.canonical(),
                Err(error) => Self::decoded(json_model(*value)) == Err::<Self::V, Self::Err>(
                    error,
                ),
            },
    ;

    /// Encodes the value as a document.
    fn to_json(&self) -> (r: serde_json::Value)
        requires
            self.encodable(),
        ensures
            json_model(r) == Self::encoded(self@),
    ;

    /// No canonical value is written as `null`.
    proof fn lemma_encoded_is_not_null(&self)
        requires
            self.canonical(),
        ensures
            !(Self::encoded(self@) is Null),
    ;

    /// Round trip: decoding the document of a canonical value gives the value
    /// back.
    proof fn lemma_round_trip(&self)
        requires
            self.canonical(),
        ensures
            Self::decoded(Self::encoded(self@)) == Ok::<Self::V, Self::Err>(self@),
    ;
}

} // verus!
