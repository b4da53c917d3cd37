//! The value of a user-boundary field: users and departments, by UUID.

use super::json_codec::JsonCodec;
use super::uuid::{is_canonical_uuid_text, Uuid};
use crate::json::{
    array, as_array, get, insert, is_null, is_object, json_model, json_models, new_members,
    no_members, object, JsonModel,
};
use vstd::prelude::*;

verus! {

/// The error of the user-boundary codec, by the part of the document that is
/// wrong.
#[derive(Debug, PartialEq, Eq)]
pub enum ParseUserBoundaryError {
    InvalidJson,
    InvalidUserUuids,
    InvalidSimpleDepartmentUuids,
    InvalidPenetratingDepartmentUuids,
}

/// A set of users, given directly and through departments.
#[derive(Debug, Clone, PartialEq, Eq)]
pub struct UserBoundary {
    pub user_uuids: Vec<Uuid>,
    pub simple_department_uuids: Vec<Uuid>,
    pub penetrating_department_uuids: Vec<Uuid>,
}

/// The mathematical content of a [`UserBoundary`]: three sequences of UUID
/// texts.
pub struct UserBoundaryView {
    pub user_uuids: Seq<Seq<char>>,
    pub simple_department_uuids: Seq<Seq<char>>,
    pub penetrating_department_uuids: Seq<Seq<char>>,
}

/// The texts of a sequence of UUIDs, in order.
pub open spec fn uuid_texts(uuids: Seq<Uuid>) -> Seq<Seq<char>> {
    uuids.map_values(|uuid: Uuid| uuid@)
}

/// Whether every UUID of a sequence is in canonical form.
pub open spec fn all_canonical_uuids(uuids: Seq<Uuid>) -> bool {
    forall|i: int| 0 <= i < uuids.len() ==> is_canonical_uuid_text((#[trigger] uuids[i])@)
}

/// The documents that a sequence of UUID texts is written as.
pub open spec fn uuid_items(texts: Seq<Seq<char>>) -> Seq<JsonModel> {
    texts.map_values(|text: Seq<char>| Uuid::encoded(text))
}

/// What a document decodes to as a list of UUIDs: an array whose every element
/// is a UUID gives their canonical texts, `null` gives none, and anything else
/// is rejected.
pub open spec fn uuids_decoded(json: JsonModel) -> Option<Seq<Seq<char>>> {
    match json {
        JsonModel::Array(items) => if forall|i: int|
            0 <= i < items.len() ==> (#[trigger] Uuid::decoded(items[i])) is Ok {
            Some(items.map_values(|item: JsonModel| Uuid::decoded(item).unwrap()))
        } else {
            None
        },
        JsonModel::Null => Some(Seq::empty()),
        _ => None,
    }
}

/// What a member that lists UUIDs decodes to: as [`uuids_decoded`] says where
/// the member is there, and to no UUIDs where it is not.
pub open spec fn uuids_member_decoded(member: Option<JsonModel>) -> Option<Seq<Seq<char>>> {
    match member {
        Some(json) => uuids_decoded(json),
        None => Some(Seq::empty()),
    }
}

impl View for UserBoundary {
    type V = UserBoundaryView;

    open spec fn view(&self) -> UserBoundaryView {
        UserBoundaryView {
            user_uuids: uuid_texts(self.user_uuids@),
            simple_department_uuids: uuid_texts(self.simple_department_uuids@),
            penetrating_department_uuids: uuid_texts(self.penetrating_department_uuids@),
        }
    }
}

impl UserBoundary {
    /// The boundary that names nobody.
    pub fn empty() -> (r: Self)
        ensures
            r@.user_uuids.len() == 0,
            r@.simple_department_uuids.len() == 0,
            r@.penetrating_department_uuids.len() == 0,
    {
        UserBoundary {
            user_uuids: Vec::new(),
            simple_department_uuids: Vec::new(),
            penetrating_department_uuids: Vec::new(),
        }
    }

    /// Whether the boundary names nobody.
    pub fn is_empty(&self) -> (r: bool)
        ensures
            r == (self@.user_uuids.len() == 0 && self@.simple_department_uuids.len() == 0
                && self@.penetrating_department_uuids.len() == 0),
    {
        self.user_uuids.len() == 0 && self.simple_department_uuids.len() == 0
            && self.penetrating_department_uuids.len() == 0
    }
}

/// Round trip for lists of UUIDs: canonical UUIDs are read back from their
/// documents unchanged.
pub proof fn lemma_uuids_round_trip(uuids: Seq<Uuid>)
    requires
        all_canonical_uuids(uuids),
    ensures
        uuids_decoded(JsonModel::Array(uuid_items(uuid_texts(uuids)))) == Some(uuid_texts(uuids)),
{
    let items = uuid_items(uuid_texts(uuids));
    assert forall|i: int| 0 <= i < items.len() implies (#[trigger] Uuid::decoded(items[i])) == Ok::<
        Seq<char>,
        super::uuid::ParseUuidError,
    >(uuid_texts(uuids)[i]) by {
        uuids[i].lemma_round_trip();
    }
    assert(items.map_values(|item: JsonModel| Uuid::decoded(item).unwrap()) =~= uuid_texts(uuids));
}

impl JsonCodec for UserBoundary {
    type Err = ParseUserBoundaryError;

    open spec fn decoded(json: JsonModel) -> Result<UserBoundaryView, ParseUserBoundaryError> {
        if !(json is Object) {
            Err(ParseUserBoundaryError::InvalidJson)
        } else {
            match uuids_member_decoded(json.member("user_uuids"@)) {
                None => Err(ParseUserBoundaryError::InvalidUserUuids),
                Some(user_uuids) => match uuids_member_decoded(
                    json.member("simple_department_uuids"@),
                ) {
                    None => Err(ParseUserBoundaryError::InvalidSimpleDepartmentUuids),
                    Some(simple_department_uuids) => match uuids_member_decoded(
                        json.member("penetrating_department_uuids"@),
                    ) {
                        None => Err(ParseUserBoundaryError::InvalidPenetratingDepartmentUuids),
                        Some(penetrating_department_uuids) => Ok(
                            UserBoundaryView {
                                user_uuids,
                                simple_department_uuids,
                                penetrating_department_uuids,
                            },
                        ),
                    },
                },
            }
        }
    }

    open spec fn encoded(value: UserBoundaryView) -> JsonModel {
        JsonModel::Object(
            no_members().insert(
                "user_uuids"@,
                JsonModel::Array(uuid_items(value.user_uuids)),
            ).insert(
                "simple_department_uuids"@,
                JsonModel::Array(uuid_items(value.simple_department_uuids)),
            ).insert(
                "penetrating_department_uuids"@,
                JsonModel::Array(uuid_items(value.penetrating_department_uuids)),
            ),
        )
    }

    open spec fn encodable(&self) -> bool {
        true
    }

    open spec fn canonical(&self) -> bool {
        all_canonical_uuids(self.user_uuids@) && all_canonical_uuids(
            self.simple_department_uuids@,
        ) && all_canonical_uuids(self.penetrating_department_uuids@)
    }

    fn from_json(value: &serde_json::Value) -> (r: Result<Self, ParseUserBoundaryError>) {
        if !is_object(value) {
            return Err(ParseUserBoundaryError::InvalidJson);
        }
        let mut user_uuids: Vec<Uuid> = Vec::new();
        let mut simple_department_uuids: Vec<Uuid> = Vec::new();
        let mut penetrating_department_uuids: Vec<Uuid> = Vec::new();
        proof {
            assert(uuid_texts(user_uuids@) =~= Seq::empty());
            assert(uuid_texts(simple_department_uuids@) =~= Seq::empty());
            assert(uuid_texts(penetrating_department_uuids@) =~= Seq::empty());
        }

        if let Some(user_uuids_json) = get(value, "user_uuids") {
            match uuids_from_json(user_uuids_json) {
                Ok(uuids) => user_uuids = uuids,
                Err(_msg) => return Err(ParseUserBoundaryError::InvalidUserUuids),
            }
        }
        if let Some(simple_department_uuids_json) = get(value, "simple_department_uuids") {
            match uuids_from_json(simple_department_uuids_json) {
                Ok(uuids) => simple_department_uuids = uuids,
                Err(_msg) => return Err(ParseUserBoundaryError::InvalidSimpleDepartmentUuids),
            }
        }
        if let Some(penetrating_department_uuids_json) = get(
            value,
            "penetrating_department_uuids",
        ) {
            match uuids_from_json(penetrating_department_uuids_json) {
                Ok(uuids) => penetrating_department_uuids = uuids,
                Err(_msg) => return Err(
                    ParseUserBoundaryError::InvalidPenetratingDepartmentUuids,
                ),
            }
        }
        Ok(UserBoundary { user_uuids, simple_department_uuids, penetrating_department_uuids })
    }

    fn to_json(&self) -> (r: serde_json::Value) {
        let mut members = new_members();
        insert(&mut members, "user_uuids", array(uuids_to_json(self.user_uuids.as_slice())));
        insert(
            &mut members,
            "simple_department_uuids",
            array(uuids_to_json(self.simple_department_uuids.as_slice())),
        );
        insert(
            &mut members,
            "penetrating_department_uuids",
            array(uuids_to_json(self.penetrating_department_uuids.as_slice())),
        );
        object(members)
    }

    proof fn lemma_encoded_is_not_null(&self) {
    }

    proof fn lemma_round_trip(&self) {
        reveal_strlit("user_uuids");
        reveal_strlit("simple_department_uuids");
        reveal_strlit("penetrating_department_uuids");
        assert("user_uuids"@.len() == 10);
        assert("simple_department_uuids"@.len() == 23);
        assert("penetrating_department_uuids"@.len() == 28);
        lemma_uuids_round_trip(self.user_uuids@);
        lemma_uuids_round_trip(self.simple_department_uuids@);
        lemma_uuids_round_trip(self.penetrating_department_uuids@);
    }
}

fn uuids_from_json(json: &serde_json::Value) -> (r: Result<Vec<Uuid>, &'static str>)
    ensures
        match r {
            Ok(uuids) => uuids_decoded(json_model(*json)) == Some(uuid_texts(uuids@))
                && all_canonical_uuids(uuids@),
            Err(_) => uuids_decoded(json_model(*json)) is None,
        },
{
    let mut uuids: Vec<Uuid> = Vec::new();
    match as_array(json) {
        Some(array) => {
            let ghost items = json_models(array@);
            let mut i: usize = 0;
            while i < array.len()
                invariant
                    0 <= i <= array.len(),
                    items == json_models(array@),
                    json_model(*json) == JsonModel::Array(items),
                    uuids@.len() == i,
                    all_canonical_uuids(uuids@),
                    forall|k: int|
                        0 <= k < i ==> (#[trigger] Uuid::decoded(items[k])) == Ok::<
                            Seq<char>,
                            super::uuid::ParseUuidError,
                        >(uuids@[k]@),
                decreases array.len() - i,
            {
                match Uuid::from_json(&array[i]) {
                    Ok(uuid) => uuids.push(uuid),
                    Err(_err) => {
                        assert(Uuid::decoded(items[i as int]) is Err);
                        return Err("invalid uuid");
                    },
                }
                i += 1;
            }
            assert(items.map_values(|item: JsonModel| Uuid::decoded(item).unwrap()) =~= uuid_texts(
                uuids@,
            ));
        },
        None => {
            if !is_null(json) {
                return Err("invalid uuid");
            }
            assert(uuid_texts(uuids@) =~= Seq::empty());
        },
    }
    Ok(uuids)
}

fn uuids_to_json(uuids: &[Uuid]) -> (r: Vec<serde_json::Value>)
    ensures
        json_models(r@) == uuid_items(uuid_texts(uuids@)),
{
    let mut result: Vec<serde_json::Value> = Vec::new();
    let mut i: usize = 0;
    while i < uuids.len()
        invariant
            0 <= i <= uuids.len(),
            result@.len() == i,
            forall|k: int|
                0 <= k < i ==> json_model(#[trigger] result@[k]) == Uuid::encoded(uuids@[k]@),
        decreases uuids.len() - i,
    {
        result.push(uuids[i].to_json());
        i += 1;
    }
    assert(json_models(result@) =~= uuid_items(uuid_texts(uuids@)));
    result
}

} // verus!
