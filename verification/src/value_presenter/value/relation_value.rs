//! The value of a relation field: a reference to a resource of another
//! part of the system.

use super::file_object::text_member_decoded;
use super::json_codec::JsonCodec;
use super::uuid::{normalized_uuid_text, Uuid};
use crate::json::{
    as_str, get, insert, is_object, json_model, new_members, no_members, object, string,
    JsonModel,
};
use crate::text::{is_first_at, split_once, text_eq};
use vstd::prelude::*;

verus! {

/// The kind of resource that a relation points to. The catalog is closed.
#[derive(Debug, Clone, Copy, PartialEq, Eq, Structural)]
pub enum ResourceType {
    DatabaseTable,
    DatabaseRow,
    WorkflowCase,
    WorkflowWorkflow,
    WorkflowVersionedWorkflow,
    IdentityAccessUser,
    IdentityAccessDepartment,
}

/// The error of [`ResourceType::parse_str`]: the text names no resource type.
#[derive(Debug, Clone, Copy, PartialEq, Eq, Structural)]
pub struct ParseResourceTypeError;

impl ResourceType {
    /// The name in upper snake case. This is the spelling that is written out.
    pub open spec fn upper_name(self) -> Seq<char> {
        match self {
            ResourceType::DatabaseTable => "DATABASE_TABLE"@,
            ResourceType::DatabaseRow => "DATABASE_ROW"@,
            ResourceType::WorkflowCase => "WORKFLOW_CASE"@,
            ResourceType::WorkflowWorkflow => "WORKFLOW_WORKFLOW"@,
            ResourceType::WorkflowVersionedWorkflow => "WORKFLOW_VERSIONED_WORKFLOW"@,
            ResourceType::IdentityAccessUser => "IDENTITY_ACCESS_USER"@,
            ResourceType::IdentityAccessDepartment => "IDENTITY_ACCESS_DEPARTMENT"@,
        }
    }

    /// The name in lower snake case.
    pub open spec fn lower_name(self) -> Seq<char> {
        match self {
            ResourceType::DatabaseTable => "database_table"@,
            ResourceType::DatabaseRow => "database_row"@,
            ResourceType::WorkflowCase => "workflow_case"@,
            ResourceType::WorkflowWorkflow => "workflow_workflow"@,
            ResourceType::WorkflowVersionedWorkflow => "workflow_versioned_workflow"@,
            ResourceType::IdentityAccessUser => "identity_access_user"@,
            ResourceType::IdentityAccessDepartment => "identity_access_department"@,
        }
    }

    /// Whether `name` is one of the two accepted spellings of this resource
    /// type.
    pub open spec fn is_spelled(self, name: Seq<char>) -> bool {
        name == self.lower_name() || name == self.upper_name()
    }

    /// The resource type that `name` spells, if any. Nothing but the
    /// enumerated spellings is accepted.
    pub open spec fn from_name(name: Seq<char>) -> Option<ResourceType> {
        if ResourceType::DatabaseTable.is_spelled(name) {
            Some(ResourceType::DatabaseTable)
        } else if ResourceType::DatabaseRow.is_spelled(name) {
            Some(ResourceType::DatabaseRow)
        } else if ResourceType::WorkflowCase.is_spelled(name) {
            Some(ResourceType::WorkflowCase)
        } else if ResourceType::WorkflowWorkflow.is_spelled(name) {
            Some(ResourceType::WorkflowWorkflow)
        } else if ResourceType::WorkflowVersionedWorkflow.is_spelled(name) {
            Some(ResourceType::WorkflowVersionedWorkflow)
        } else if ResourceType::IdentityAccessUser.is_spelled(name) {
            Some(ResourceType::IdentityAccessUser)
        } else if ResourceType::IdentityAccessDepartment.is_spelled(name) {
            Some(ResourceType::IdentityAccessDepartment)
        } else {
            None
        }
    }

    fn lower_str(&self) -> (r: &'static str)
        ensures
            r@ == self.lower_name(),
    {
        match self {
            ResourceType::DatabaseTable => "database_table",
            ResourceType::DatabaseRow => "database_row",
            ResourceType::WorkflowCase => "workflow_case",
            ResourceType::WorkflowWorkflow => "workflow_workflow",
            ResourceType::WorkflowVersionedWorkflow => "workflow_versioned_workflow",
            ResourceType::IdentityAccessUser => "identity_access_user",
            ResourceType::IdentityAccessDepartment => "identity_access_department",
        }
    }

    fn spells(&self, s: &str) -> (r: bool)
        ensures
            r == self.is_spelled(s@),
    {
        text_eq(s, self.lower_str()) || text_eq(s, self.to_str())
    }

    /// Reads a resource type from one of its accepted spellings.
    pub fn parse_str(s: &str) -> (r: Result<Self, ParseResourceTypeError>)
        ensures
            r == (match Self::from_name(s@) {
                Some(resource_type) => Ok(resource_type),
                None => Err(ParseResourceTypeError),
            }),
    {
        if ResourceType::DatabaseTable.spells(s) {
            Ok(ResourceType::DatabaseTable)
        } else if ResourceType::DatabaseRow.spells(s) {
            Ok(ResourceType::DatabaseRow)
        } else if ResourceType::WorkflowCase.spells(s) {
            Ok(ResourceType::WorkflowCase)
        } else if ResourceType::WorkflowWorkflow.spells(s) {
            Ok(ResourceType::WorkflowWorkflow)
        } else if ResourceType::WorkflowVersionedWorkflow.spells(s) {
            Ok(ResourceType::WorkflowVersionedWorkflow)
        } else if ResourceType::IdentityAccessUser.spells(s) {
            Ok(ResourceType::IdentityAccessUser)
        } else if ResourceType::IdentityAccessDepartment.spells(s) {
            Ok(ResourceType::IdentityAccessDepartment)
        } else {
            Err(ParseResourceTypeError)
        }
    }

    /// The name of the resource type as it is written out: upper snake case.
    pub fn to_str(&self) -> (r: &str)
        ensures
            r@ == self.upper_name(),
    {
        match self {
            ResourceType::DatabaseTable => "DATABASE_TABLE",
            ResourceType::DatabaseRow => "DATABASE_ROW",
            ResourceType::WorkflowCase => "WORKFLOW_CASE",
            ResourceType::WorkflowWorkflow => "WORKFLOW_WORKFLOW",
            ResourceType::WorkflowVersionedWorkflow => "WORKFLOW_VERSIONED_WORKFLOW",
            ResourceType::IdentityAccessUser => "IDENTITY_ACCESS_USER",
            ResourceType::IdentityAccessDepartment => "IDENTITY_ACCESS_DEPARTMENT",
        }
    }

    /// No text spells two resource types.
    pub proof fn lemma_spelling_is_unique(self, other: ResourceType, name: Seq<char>)
        requires
            self.is_spelled(name),
            other.is_spelled(name),
        ensures
            self == other,
    {
        reveal_strlit("database_table");
        assert("database_table"@.len() == 14 && "database_table"@[0] == 'd');
        reveal_strlit("DATABASE_TABLE");
        assert("DATABASE_TABLE"@.len() == 14 && "DATABASE_TABLE"@[0] == 'D');
        reveal_strlit("database_row");
        assert("database_row"@.len() == 12 && "database_row"@[0] == 'd');
        reveal_strlit("DATABASE_ROW");
        assert("DATABASE_ROW"@.len() == 12 && "DATABASE_ROW"@[0] == 'D');
        reveal_strlit("workflow_case");
        assert("workflow_case"@.len() == 13 && "workflow_case"@[0] == 'w');
        reveal_strlit("WORKFLOW_CASE");
        assert("WORKFLOW_CASE"@.len() == 13 && "WORKFLOW_CASE"@[0] == 'W');
        reveal_strlit("workflow_workflow");
        assert("workflow_workflow"@.len() == 17 && "workflow_workflow"@[0] == 'w');
        reveal_strlit("WORKFLOW_WORKFLOW");
        assert("WORKFLOW_WORKFLOW"@.len() == 17 && "WORKFLOW_WORKFLOW"@[0] == 'W');
        reveal_strlit("workflow_versioned_workflow");
        assert("workflow_versioned_workflow"@.len() == 27 && "workflow_versioned_workflow"@[0] == 'w');
        reveal_strlit("WORKFLOW_VERSIONED_WORKFLOW");
        assert("WORKFLOW_VERSIONED_WORKFLOW"@.len() == 27 && "WORKFLOW_VERSIONED_WORKFLOW"@[0] == 'W');
        reveal_strlit("identity_access_user");
        assert("identity_access_user"@.len() == 20 && "identity_access_user"@[0] == 'i');
        reveal_strlit("IDENTITY_ACCESS_USER");
        assert("IDENTITY_ACCESS_USER"@.len() == 20 && "IDENTITY_ACCESS_USER"@[0] == 'I');
        reveal_strlit("identity_access_department");
        assert("identity_access_department"@.len() == 26 && "identity_access_department"@[0] == 'i');
        reveal_strlit("IDENTITY_ACCESS_DEPARTMENT");
        assert("IDENTITY_ACCESS_DEPARTMENT"@.len() == 26 && "IDENTITY_ACCESS_DEPARTMENT"@[0] == 'I');
    }

    /// Every accepted spelling of a resource type reads back as that resource
    /// type.
    pub proof fn lemma_spelling_parses(self, name: Seq<char>)
        requires
            self.is_spelled(name),
        ensures
            Self::from_name(name) == Some(self),
    {
        if ResourceType::from_name(name) != Some(self) {
            let other = choose|other: ResourceType| other.is_spelled(name) && other != self;
            self.lemma_spelling_is_unique(other, name);
        }
    }
}

/// The error of the relation codec, by the part of the document that is wrong.
#[derive(Debug, PartialEq, Eq)]
pub enum ParseRelationValueError {
    InvalidJson,
    InvalidResourceType,
    InvalidResourceUuid,
}

/// A reference to a resource.
#[derive(Debug, Clone, PartialEq, Eq)]
pub struct RelationValue {
    pub resource_type: ResourceType,
    pub resource_uuid: Uuid,
}

/// The mathematical content of a [`RelationValue`].
pub struct RelationValueView {
    pub resource_type: ResourceType,
    pub resource_uuid: Seq<char>,
}

impl View for RelationValue {
    type V = RelationValueView;

    open spec fn view(&self) -> RelationValueView {
        RelationValueView { resource_type: self.resource_type, resource_uuid: self.resource_uuid@ }
    }
}

impl RelationValue {
    /// A reference to the resource of the given type and identity.
    pub fn new(resource_type: ResourceType, resource_uuid: Uuid) -> (r: Self)
        ensures
            r.resource_type == resource_type,
            r.resource_uuid == resource_uuid,
    {
        Self { resource_type, resource_uuid }
    }
}

/// What the texts of a resource type and of a UUID decode to. The type is
/// looked at first.
pub open spec fn pair_decoded(resource_type: Seq<char>, resource_uuid: Seq<char>) -> Result<
    RelationValueView,
    ParseRelationValueError,
> {
    match ResourceType::from_name(resource_type) {
        None => Err(ParseRelationValueError::InvalidResourceType),
        Some(resource_type) => match normalized_uuid_text(resource_uuid) {
            None => Err(ParseRelationValueError::InvalidResourceUuid),
            Some(resource_uuid) => Ok(RelationValueView { resource_type, resource_uuid }),
        },
    }
}

/// What the object form `{"type": .., "uuid": ..}` decodes to. Both members must
/// be strings before either is looked into.
pub open spec fn object_decoded(json: JsonModel) -> Result<
    RelationValueView,
    ParseRelationValueError,
> {
    match text_member_decoded(json.member("type"@)) {
        None => Err(ParseRelationValueError::InvalidResourceType),
        Some(resource_type) => match text_member_decoded(json.member("uuid"@)) {
            None => Err(ParseRelationValueError::InvalidResourceUuid),
            Some(resource_uuid) => pair_decoded(resource_type, resource_uuid),
        },
    }
}

/// What the compact form `"type:uuid"` decodes to. The text is split at its
/// first colon; a text without a colon is rejected.
pub open spec fn string_decoded(text: Seq<char>) -> Result<
    RelationValueView,
    ParseRelationValueError,
> {
    if exists|i: int| is_first_at(text, ':', i) {
        let i = choose|i: int| is_first_at(text, ':', i);
        pair_decoded(text.subrange(0, i), text.subrange(i + 1, text.len() as int))
    } else {
        Err(ParseRelationValueError::InvalidJson)
    }
}

fn from_pair(resource_type: &str, resource_uuid: &str) -> (r: Result<
    RelationValue,
    ParseRelationValueError,
>)
    ensures
        match r {
            Ok(relation) => pair_decoded(resource_type@, resource_uuid@) == Ok::<
                RelationValueView,
                ParseRelationValueError,
            >(relation@) && relation.canonical(),
            Err(error) => pair_decoded(resource_type@, resource_uuid@) == Err::<
                RelationValueView,
                ParseRelationValueError,
            >(error),
        },
{
    let resource_type = match ResourceType::parse_str(resource_type) {
        Ok(resource_type) => resource_type,
        Err(_) => return Err(ParseRelationValueError::InvalidResourceType),
    };
    let resource_uuid = match Uuid::new(resource_uuid) {
        Ok(uuid) => uuid,
        Err(_) => return Err(ParseRelationValueError::InvalidResourceUuid),
    };
    Ok(RelationValue { resource_type, resource_uuid })
}

fn from_object(object: &serde_json::Value) -> (r: Result<RelationValue, ParseRelationValueError>)
    ensures
        match r {
            Ok(relation) => object_decoded(json_model(*object)) == Ok::<
                RelationValueView,
                ParseRelationValueError,
            >(relation@) && relation.canonical(),
            Err(error) => object_decoded(json_model(*object)) == Err::<
                RelationValueView,
                ParseRelationValueError,
            >(error),
        },
{
    let resource_type = match get(object, "type") {
        Some(type_json) => match as_str(type_json) {
            Some(s) => s,
            None => return Err(ParseRelationValueError::InvalidResourceType),
        },
        None => return Err(ParseRelationValueError::InvalidResourceType),
    };
    let resource_uuid = match get(object, "uuid") {
        Some(uuid_json) => match as_str(uuid_json) {
            Some(s) => s,
            None => return Err(ParseRelationValueError::InvalidResourceUuid),
        },
        None => return Err(ParseRelationValueError::InvalidResourceUuid),
    };
    from_pair(resource_type, resource_uuid)
}

fn from_string(text: &str) -> (r: Result<RelationValue, ParseRelationValueError>)
    ensures
        match r {
            Ok(relation) => string_decoded(text@) == Ok::<
                RelationValueView,
                ParseRelationValueError,
            >(relation@) && relation.canonical(),
            Err(error) => string_decoded(text@) == Err::<
                RelationValueView,
                ParseRelationValueError,
            >(error),
        },
{
    match split_once(text, ':') {
        Some((resource_type, resource_uuid)) => {
            proof {
                let at = resource_type@.len() as int;
                let chosen = choose|i: int| is_first_at(text@, ':', i);
                assert(is_first_at(text@, ':', at));
                assert(chosen == at);
            }
            from_pair(resource_type, resource_uuid)
        },
        _ => {
            assert(forall|i: int| !is_first_at(text@, ':', i));
            Err(ParseRelationValueError::InvalidJson)
        },
    }
}

impl JsonCodec for RelationValue {
    type Err = ParseRelationValueError;

    /// A relation is read from the object form or from the compact string
    /// form; any other document is rejected.
    open spec fn decoded(json: JsonModel) -> Result<RelationValueView, ParseRelationValueError> {
        match json {
            JsonModel::Object(_) => object_decoded(json),
            JsonModel::String(text) => string_decoded(text),
            _ => Err(ParseRelationValueError::InvalidJson),
        }
    }

    /// A relation is written in the object form.
    open spec fn encoded(value: RelationValueView) -> JsonModel {
        JsonModel::Object(
            no_members().insert("type"@, JsonModel::String(value.resource_type.upper_name())).insert(
                "uuid"@,
                Uuid::encoded(value.resource_uuid),
            ),
        )
    }

    open spec fn encodable(&self) -> bool {
        true
    }

    open spec fn canonical(&self) -> bool {
        self.resource_uuid.canonical()
    }

    fn from_json(value: &serde_json::Value) -> (r: Result<Self, ParseRelationValueError>) {
        if is_object(value) {
            return from_object(value);
        }
        match as_str(value) {
            Some(text) => from_string(text),
            None => Err(ParseRelationValueError::InvalidJson),
        }
    }

    fn to_json(&self) -> (r: serde_json::Value) {
        let mut members = new_members();
        insert(&mut members, "type", string(self.resource_type.to_str().to_owned()));
        insert(&mut members, "uuid", self.resource_uuid.to_json());
        object(members)
    }

    proof fn lemma_encoded_is_not_null(&self) {
    }

    proof fn lemma_round_trip(&self) {
        reveal_strlit("type");
        reveal_strlit("uuid");
        assert("type"@.len() == 4 && "type"@[0] == 't');
        assert("uuid"@.len() == 4 && "uuid"@[0] == 'u');
        self.resource_type.lemma_spelling_parses(self.resource_type.upper_name());
        self.resource_uuid.lemma_round_trip();
    }
}

} // verus!
