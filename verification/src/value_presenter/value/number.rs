//! Numbers: 64-bit integers and floating-point values.

use super::json_codec::JsonCodec;
use crate::json::{
    as_float, as_i64, as_u64, integer, integer_model, json_model, JsonModel,
    NumberModel,
};
use vstd::prelude::*;

verus! {

/// A number of a numeric field.
///
/// A floating-point value is kept as the JSON number it was read from, or, for
/// a value made by a caller, as `serde_json::Value::from` makes it. An integer
/// is never widened to a floating-point value.
#[derive(Debug, Clone, PartialEq)]
pub enum Number {
    Integer(i64),
    Float(serde_json::Value),
}

/// The error of the number codec: the document is not a JSON number.
#[derive(Debug, PartialEq, Eq)]
pub struct ParseNumberError;

/// The mathematical content of a [`Number`]: an integer, or the
/// floating-point JSON number that a floating-point value is held as.
pub enum NumberView {
    Integer(i64),
    Float(JsonModel),
}

impl View for Number {
    type V = NumberView;

    open spec fn view(&self) -> NumberView {
        match self {
            Number::Integer(i) => NumberView::Integer(*i),
            Number::Float(f) => NumberView::Float(json_model(*f)),
        }
    }
}

impl JsonCodec for Number {
    type Err = ParseNumberError;

    /// A JSON number is read as the first form that fits: an integer that an
    /// `i64` can hold as that integer, and a floating-point number as itself.
    /// An integer above `i64::MAX` fits neither form and is rejected: it is
    /// neither changed nor widened. Nothing but a JSON number is read.
    open spec fn decoded(json: JsonModel) -> Result<NumberView, ParseNumberError> {
        match json {
            JsonModel::Number(NumberModel::PosInt(n)) => if n <= i64::MAX as u64 {
                Ok(NumberView::Integer(n as i64))
            } else {
                Err(ParseNumberError)
            },
            JsonModel::Number(NumberModel::NegInt(n)) => Ok(NumberView::Integer(n)),
            JsonModel::Number(NumberModel::Float(_)) => Ok(NumberView::Float(json)),
            _ => Err(ParseNumberError),
        }
    }

    /// An integer is written as a JSON integer, and a floating-point value as
    /// the JSON number that it is held as.
    open spec fn encoded(value: NumberView) -> JsonModel {
        match value {
            NumberView::Integer(i) => JsonModel::Number(integer_model(i)),
            NumberView::Float(json) => json,
        }
    }

    /// Every integer can be written. A floating-point value can be written
    /// where it is held as a floating-point JSON number; what
    /// `serde_json::Value::from` makes of a value that is not finite is no
    /// such number.
    open spec fn encodable(&self) -> bool {
        match self {
            Number::Integer(_) => true,
            Number::Float(f) => json_model(*f) matches JsonModel::Number(NumberModel::Float(_)),
        }
    }

    open spec fn canonical(&self) -> bool {
        self.encodable()
    }

    fn from_json(value: &serde_json::Value) -> (r: Result<Number, ParseNumberError>) {
        match as_u64(value) {
            Some(number) => {
                if number <= i64::MAX as u64 {
                    Ok(Number::Integer(number as i64))
                } else {
                    Err(ParseNumberError)
                }
            },
            None => match as_i64(value) {
                Some(number) => Ok(Number::Integer(number)),
                None => match as_float(value) {
                    Some(number) => Ok(Number::Float(number)),
                    None => Err(ParseNumberError),
                },
            },
        }
    }

    fn to_json(&self) -> (r: serde_json::Value) {
        match self {
            Number::Integer(i) => integer(*i),
            Number::Float(f) => f.clone(),
        }
    }

    proof fn lemma_encoded_is_not_null(&self) {
    }

    proof fn lemma_round_trip(&self) {
    }
}

impl Number {
    /// Whether the number can be written out: it is an integer, or a
    /// floating-point value held as a floating-point JSON number.
    pub fn can_encode(&self) -> (r: bool)
        ensures
            r == self.encodable(),
    {
        match self {
            Number::Integer(_) => true,
            Number::Float(f) => as_u64(f).is_none() && as_i64(f).is_none() && as_float(
                f,
            ).is_some(),
        }
    }
}

} // verus!
