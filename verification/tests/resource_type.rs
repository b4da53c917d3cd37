use field_codec::value_presenter::value::relation_value::{ParseResourceTypeError, ResourceType};

const ALL: [(ResourceType, &str, &str); 7] = [
    (ResourceType::DatabaseTable, "database_table", "DATABASE_TABLE"),
    (ResourceType::DatabaseRow, "database_row", "DATABASE_ROW"),
    (ResourceType::WorkflowCase, "workflow_case", "WORKFLOW_CASE"),
    (ResourceType::WorkflowWorkflow, "workflow_workflow", "WORKFLOW_WORKFLOW"),
    (
        ResourceType::WorkflowVersionedWorkflow,
        "workflow_versioned_workflow",
        "WORKFLOW_VERSIONED_WORKFLOW",
    ),
    (ResourceType::IdentityAccessUser, "identity_access_user", "IDENTITY_ACCESS_USER"),
    (
        ResourceType::IdentityAccessDepartment,
        "identity_access_department",
        "IDENTITY_ACCESS_DEPARTMENT",
    ),
];

#[test]
fn resource_type_parses_its_two_spellings() {
    for (resource_type, lower, upper) in ALL {
        assert_eq!(ResourceType::parse_str(lower), Ok(resource_type));
        assert_eq!(ResourceType::parse_str(upper), Ok(resource_type));
    }
}

#[test]
fn resource_type_is_written_in_upper_snake_case() {
    for (resource_type, _, upper) in ALL {
        assert_eq!(resource_type.to_str(), upper);
        assert_eq!(ResourceType::parse_str(resource_type.to_str()), Ok(resource_type));
    }
}

#[test]
fn resource_type_catalog_is_closed() {
    for name in ["", "DatabaseTable", "database", "Database_Table", "database_table ", "user"] {
        assert_eq!(ResourceType::parse_str(name), Err(ParseResourceTypeError));
    }
}
