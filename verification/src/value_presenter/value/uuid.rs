//! UUIDs, kept as text in the canonical hyphenated lower-case form.

use super::json_codec::JsonCodec;
use crate::json::{as_str, string, JsonModel};
use vstd::prelude::*;

verus! {

/// The 128-bit value that a text denotes as a UUID, or nothing where
/// `uuid::Uuid::parse_str` rejects the text.
pub uninterp spec fn uuid_from_text(text: Seq<char>) -> Option<u128>;

/// The text that `uuid::Uuid::hyphenated` writes for the UUID with the given
/// 128-bit value: its canonical form, hyphenated and in lower case.
pub uninterp spec fn uuid_text(bits: u128) -> Seq<char>;

/// Whether `text` is the canonical text of the UUID that it denotes.
pub open spec fn is_canonical_uuid_text(text: Seq<char>) -> bool {
    uuid_from_text(text) matches Some(bits) && uuid_text(bits) == text
}

/// The canonical text of the UUID that `text` denotes, if it denotes one.
pub open spec fn normalized_uuid_text(text: Seq<char>) -> Option<Seq<char>> {
    match uuid_from_text(text) {
        Some(bits) => Some(uuid_text(bits)),
        None => None,
    }
}

/// Normalization: two texts that denote the same UUID, whatever their case or
/// form, have the same canonical text.
pub proof fn lemma_same_uuid_same_text(a: Seq<char>, b: Seq<char>)
    requires
        uuid_from_text(a) is Some,
        uuid_from_text(a) == uuid_from_text(b),
    ensures
        normalized_uuid_text(a) is Some,
        normalized_uuid_text(a) == normalized_uuid_text(b),
{
}

/// `uuid::Uuid::parse_str`, with the parsed UUID handed on as its 128-bit
/// value (`Uuid::as_u128`). Trusted: the outcome is a function of the text
/// alone, named [`uuid_from_text`]; a rejected text gives nothing.
#[verifier::external_body]
pub(crate) fn parse_bits(text: &str) -> (r: Option<u128>)
    ensures
        r == uuid_from_text(text@),
{
    ::uuid::Uuid::parse_str(text).ok().map(|id| id.as_u128())
}

/// `Uuid::hyphenated` followed by `to_string`, on the UUID with the given
/// 128-bit value (`Uuid::from_u128`). Trusted: the text is a function of the
/// value alone, named [`uuid_text`], and `parse_str` reads that text back as
/// the same UUID.
#[verifier::external_body]
pub(crate) fn hyphenated(bits: u128) -> (r: String)
    ensures
        r@ == uuid_text(bits),
        uuid_from_text(r@) == Some(bits),
{
    ::uuid::Uuid::from_u128(bits).hyphenated().to_string()
}

/// A UUID as its 128-bit value, most significant byte first.
#[derive(Debug, Clone, Copy, PartialEq, Eq)]
pub struct UuidV4(pub u128);

/// The error of [`UuidV4::parse_str`]: the input is not the text of a UUID.
#[derive(Debug, PartialEq, Eq)]
pub struct ParseUuidV4Error;

impl UuidV4 {
    /// Reads a UUID from any of the textual forms `uuid::Uuid::parse_str`
    /// accepts.
    pub fn parse_str(str: &str) -> (r: Result<Self, ParseUuidV4Error>)
        ensures
            match r {
                Ok(id) => uuid_from_text(str@) == Some(id.0),
                Err(_) => uuid_from_text(str@) is None,
            },
    {
        match parse_bits(str) {
            Some(bits) => Ok(UuidV4(bits)),
            None => Err(ParseUuidV4Error),
        }
    }

    /// The canonical text of the UUID: hyphenated, in lower case. The text
    /// denotes this UUID.
    pub fn to_str(&self) -> (r: String)
        ensures
            r@ == uuid_text(self.0),
            uuid_from_text(r@) == Some(self.0),
            is_canonical_uuid_text(r@),
    {
        hyphenated(self.0)
    }
}

/// A UUID in canonical text form.
#[derive(Debug, Clone, PartialEq, Eq)]
pub struct Uuid(pub String);

impl View for Uuid {
    type V = Seq<char>;

    open spec fn view(&self) -> Seq<char> {
        self.0@
    }
}

/// The error of the UUID codec: the input is not the text of a UUID.
#[derive(Debug, PartialEq, Eq)]
pub struct ParseUuidError;

pub(crate) fn parse_str(str: &str) -> (r: Result<Uuid, ParseUuidError>)
    ensures
        match r {
            Ok(id) => normalized_uuid_text(str@) == Some(id@) && is_canonical_uuid_text(id@),
            Err(_) => normalized_uuid_text(str@) is None,
        },
{
    match UuidV4::parse_str(str) {
        Ok(uuid) => Ok(Uuid(uuid.to_str())),
        Err(_err) => Err(ParseUuidError),
    }
}

impl JsonCodec for Uuid {
    type Err = ParseUuidError;

    open spec fn decoded(json: JsonModel) -> Result<Seq<char>, ParseUuidError> {
        match json {
            JsonModel::String(text) => match normalized_uuid_text(text) {
                Some(canonical) => Ok(canonical),
                None => Err(ParseUuidError),
            },
            _ => Err(ParseUuidError),
        }
    }

    open spec fn encoded(value: Seq<char>) -> JsonModel {
        JsonModel::String(value)
    }

    open spec fn encodable(&self) -> bool {
        true
    }

    open spec fn canonical(&self) -> bool {
        is_canonical_uuid_text(self@)
    }

    fn from_json(value: &serde_json::Value) -> (r: Result<Uuid, ParseUuidError>) {
        match as_str(value) {
            Some(str) => parse_str(str),
            None => Err(ParseUuidError),
        }
    }

    fn to_json(&self) -> (r: serde_json::Value) {
        string(self.0.clone())
    }

    proof fn lemma_encoded_is_not_null(&self) {
    }

    proof fn lemma_round_trip(&self) {
    }
}

impl Uuid {
    /// Reads a UUID from any of the textual forms `uuid::Uuid::parse_str`
    /// accepts, and keeps it in canonical form.
    pub fn new(str: &str) -> (r: Result<Uuid, ParseUuidError>)
        ensures
            match r {
                Ok(id) => normalized_uuid_text(str@) == Some(id@) && id.canonical(),
                Err(_) => normalized_uuid_text(str@) is None,
            },
    {
        parse_str(str)
    }
}

} // verus!
