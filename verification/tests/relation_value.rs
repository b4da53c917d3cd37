use field_codec::value_presenter::value::json_codec::JsonCodec;
use field_codec::value_presenter::value::relation_value::{
    ParseRelationValueError, RelationValue, ResourceType,
};
use field_codec::value_presenter::value::uuid::Uuid;
use serde_json::Value;

fn json_of(text: &str) -> Value {
    serde_json::from_str(text).unwrap()
}


#[test]
fn relation_value_test_from_json() {
    {
        let json = json_of(r#"{
            "type": "database_table",
            "uuid": "00000000-0000-0000-0000-ffff00000000"
        }"#);

        let relation_value = RelationValue::from_json(&json);
        assert!(matches!(
            relation_value,
            Ok(RelationValue {
                resource_type: ResourceType::DatabaseTable,
                resource_uuid,
            }) if resource_uuid == Uuid("00000000-0000-0000-0000-ffff00000000".to_string())
        ));
    }

    // UPPER_CASE type
    {
        let json = json_of(r#"{
            "type": "DATABASE_TABLE",
            "uuid": "00000000-0000-0000-0000-ffff00000000"
        }"#);

        let relation_value = RelationValue::from_json(&json);
        assert!(matches!(
            relation_value,
            Ok(RelationValue {
                resource_type: ResourceType::DatabaseTable,
                resource_uuid,
            }) if resource_uuid == Uuid("00000000-0000-0000-0000-ffff00000000".to_string())
        ));
    }
}

#[test]
fn test_from_json_with_string_value() {
    {
        let json = json_of(r#""database_table:00000000-0000-0000-0000-ffff00000000""#);

        let relation_value = RelationValue::from_json(&json);
        assert!(matches!(
            relation_value,
            Ok(RelationValue {
                resource_type: ResourceType::DatabaseTable,
                resource_uuid,
            }) if resource_uuid == Uuid("00000000-0000-0000-0000-ffff00000000".to_string())
        ));
    }

    // UPPER_CASE type
    {
        let json = json_of(r#""DATABASE_TABLE:00000000-0000-0000-0000-ffff00000000""#);

        let relation_value = RelationValue::from_json(&json);
        assert!(matches!(
            relation_value,
            Ok(RelationValue {
                resource_type: ResourceType::DatabaseTable,
                resource_uuid,
            }) if resource_uuid == Uuid("00000000-0000-0000-0000-ffff00000000".to_string())
        ));
    }
}

#[test]
fn relation_value_test_from_invalid_json() {
    {
        let json = json_of("[]");

        let relation_value = RelationValue::from_json(&json);
        assert!(matches!(
            relation_value,
            Err(ParseRelationValueError::InvalidJson)
        ));
    }

    // invalid type
    {
        let json =
            json_of(r#"{"type": "invalid_type", "uuid": "00000000-0000-0000-0000-ffff00000000"}"#);

        let relation_value = RelationValue::from_json(&json);
        assert!(matches!(
            relation_value,
            Err(ParseRelationValueError::InvalidResourceType)
        ));
    }

    // invalid uuid
    {
        let json = json_of(r#"{"type": "database_table", "uuid": "invalid_uuid"}"#);

        let relation_value = RelationValue::from_json(&json);
        assert!(matches!(
            relation_value,
            Err(ParseRelationValueError::InvalidResourceUuid)
        ));
    }
}

#[test]
fn relation_value_test_to_json() {
    {
        let relation_value = RelationValue {
            resource_type: ResourceType::DatabaseTable,
            resource_uuid: Uuid("00000000-0000-0000-0000-ffff00000000".to_string()),
        };

        let json = json_of(r#"{
            "type": "DATABASE_TABLE",
            "uuid": "00000000-0000-0000-0000-ffff00000000"
        }"#);

        assert!(relation_value.to_json() == json);
    }
}
