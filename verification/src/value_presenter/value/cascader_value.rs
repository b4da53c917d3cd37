//! The value of a cascader field: a row of an options table.

use super::json_codec::JsonCodec;
use super::uuid::Uuid;
use crate::json::{get, insert, is_object, new_members, no_members, object, JsonModel};
use vstd::prelude::*;

verus! {

/// The error of the cascader codec, by the part of the document that is wrong.
#[derive(Debug, PartialEq, Eq)]
pub enum ParseCascaderValueError {
    InvalidJson,
    InvalidOptionsTableUuid,
    InvalidRowUuid,
}

/// A row of an options table.
#[derive(Debug, Clone, PartialEq, Eq)]
pub struct CascaderValue {
    pub options_table_uuid: Uuid,
    pub row_uuid: Uuid,
}

/// The mathematical content of a [`CascaderValue`]: two UUID texts.
pub struct CascaderValueView {
    pub options_table_uuid: Seq<char>,
    pub row_uuid: Seq<char>,
}

impl View for CascaderValue {
    type V = CascaderValueView;

    open spec fn view(&self) -> CascaderValueView {
        CascaderValueView {
            options_table_uuid: self.options_table_uuid@,
            row_uuid: self.row_uuid@,
        }
    }
}

impl CascaderValue {
    /// A cascader value of the given table and row.
    pub fn new(options_table_uuid: Uuid, row_uuid: Uuid) -> (r: Self)
        ensures
            r.options_table_uuid == options_table_uuid,
            r.row_uuid == row_uuid,
    {
        Self { options_table_uuid, row_uuid }
    }
}

/// What a member that must hold a UUID decodes to: the canonical text of the
/// UUID, or nothing where the member is missing or is not a UUID.
pub open spec fn uuid_member_decoded(member: Option<JsonModel>) -> Option<Seq<char>> {
    match member {
        Some(json) => match Uuid::decoded(json) {
            Ok(text) => Some(text),
            Err(_) => None,
        },
        None => None,
    }
}

impl JsonCodec for CascaderValue {
    type Err = ParseCascaderValueError;

    open spec fn decoded(json: JsonModel) -> Result<CascaderValueView, ParseCascaderValueError> {
        if !(json is Object) {
            Err(ParseCascaderValueError::InvalidJson)
        } else {
            match uuid_member_decoded(json.member("options_table_uuid"@)) {
                None => Err(ParseCascaderValueError::InvalidOptionsTableUuid),
                Some(options_table_uuid) => match uuid_member_decoded(json.member("row_uuid"@)) {
                    None => Err(ParseCascaderValueError::InvalidRowUuid),
                    Some(row_uuid) => Ok(CascaderValueView { options_table_uuid, row_uuid }),
                },
            }
        }
    }

    open spec fn encoded(value: CascaderValueView) -> JsonModel {
        JsonModel::Object(
            no_members().insert(
                "options_table_uuid"@,
                Uuid::encoded(value.options_table_uuid),
            ).insert("row_uuid"@, Uuid::encoded(value.row_uuid)),
        )
    }

    open spec fn encodable(&self) -> bool {
        true
    }

    open spec fn canonical(&self) -> bool {
        self.options_table_uuid.canonical() && self.row_uuid.canonical()
    }

    fn from_json(value: &serde_json::Value) -> (r: Result<Self, ParseCascaderValueError>) {
        if !is_object(value) {
            return Err(ParseCascaderValueError::InvalidJson);
        }
        let options_table_uuid = match get(value, "options_table_uuid") {
            Some(options_table_uuid) => match Uuid::from_json(options_table_uuid) {
                Ok(uuid) => uuid,
                Err(_) => return Err(ParseCascaderValueError::InvalidOptionsTableUuid),
            },
            None => return Err(ParseCascaderValueError::InvalidOptionsTableUuid),
        };
        let row_uuid = match get(value, "row_uuid") {
            Some(row_uuid) => match Uuid::from_json(row_uuid) {
                Ok(uuid) => uuid,
                Err(_) => return Err(ParseCascaderValueError::InvalidRowUuid),
            },
            None => return Err(ParseCascaderValueError::InvalidRowUuid),
        };
        Ok(CascaderValue { options_table_uuid, row_uuid })
    }

    fn to_json(&self) -> (r: serde_json::Value) {
        let mut members = new_members();
        insert(&mut members, "options_table_uuid", self.options_table_uuid.to_json());
        insert(&mut members, "row_uuid", self.row_uuid.to_json());
        object(members)
    }

    proof fn lemma_encoded_is_not_null(&self) {
    }

    proof fn lemma_round_trip(&self) {
        reveal_strlit("options_table_uuid");
        reveal_strlit("row_uuid");
        assert("options_table_uuid"@.len() == 18);
        assert("row_uuid"@.len() == 8);
        self.options_table_uuid.lemma_round_trip();
        self.row_uuid.lemma_round_trip();
    }
}

} // verus!
