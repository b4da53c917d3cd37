use field_codec::value_presenter::field_type::{FieldType, ParseFieldTypeError};

const ALL: [(FieldType, &str, &str, &str); 21] = [
    (FieldType::BooleanField, "BooleanField", "BOOLEAN_FIELD", "boolean_field"),
    (FieldType::CascaderField, "CascaderField", "CASCADER_FIELD", "cascader_field"),
    (FieldType::CheckboxField, "CheckboxField", "CHECKBOX_FIELD", "checkbox_field"),
    (FieldType::DateTimeField, "DateTimeField", "DATE_TIME_FIELD", "date_time_field"),
    (FieldType::FileField, "FileField", "FILE_FIELD", "file_field"),
    (
        FieldType::MultipleLineField,
        "MultipleLineField",
        "MULTIPLE_LINE_FIELD",
        "multiple_line_field",
    ),
    (FieldType::NumericField, "NumericField", "NUMERIC_FIELD", "numeric_field"),
    (
        FieldType::RadioButtonField,
        "RadioButtonField",
        "RADIO_BUTTON_FIELD",
        "radio_button_field",
    ),
    (FieldType::RelationField, "RelationField", "RELATION_FIELD", "relation_field"),
    (FieldType::SingleLineField, "SingleLineField", "SINGLE_LINE_FIELD", "single_line_field"),
    (FieldType::TableRowField, "TableRowField", "TABLE_ROW_FIELD", "table_row_field"),
    (
        FieldType::UserBoundaryField,
        "UserBoundaryField",
        "USER_BOUNDARY_FIELD",
        "user_boundary_field",
    ),
    (
        FieldType::BooleanListField,
        "BooleanListField",
        "BOOLEAN_LIST_FIELD",
        "boolean_list_field",
    ),
    (
        FieldType::CascaderListField,
        "CascaderListField",
        "CASCADER_LIST_FIELD",
        "cascader_list_field",
    ),
    (
        FieldType::DateTimeListField,
        "DateTimeListField",
        "DATE_TIME_LIST_FIELD",
        "date_time_list_field",
    ),
    (FieldType::FileListField, "FileListField", "FILE_LIST_FIELD", "file_list_field"),
    (
        FieldType::MultipleLineListField,
        "MultipleLineListField",
        "MULTIPLE_LINE_LIST_FIELD",
        "multiple_line_list_field",
    ),
    (
        FieldType::NumericListField,
        "NumericListField",
        "NUMERIC_LIST_FIELD",
        "numeric_list_field",
    ),
    (
        FieldType::RelationListField,
        "RelationListField",
        "RELATION_LIST_FIELD",
        "relation_list_field",
    ),
    (
        FieldType::SingleLineListField,
        "SingleLineListField",
        "SINGLE_LINE_LIST_FIELD",
        "single_line_list_field",
    ),
    (
        FieldType::TableRowListField,
        "TableRowListField",
        "TABLE_ROW_LIST_FIELD",
        "table_row_list_field",
    ),
];

#[test]
fn field_type_parses_its_three_spellings() {
    for (field_type, pascal, upper, lower) in ALL {
        assert_eq!(FieldType::parse_str(pascal), Ok(field_type));
        assert_eq!(FieldType::parse_str(upper), Ok(field_type));
        assert_eq!(FieldType::parse_str(lower), Ok(field_type));
    }
}

#[test]
fn field_type_is_written_in_upper_snake_case() {
    for (field_type, _, upper, _) in ALL {
        assert_eq!(field_type.to_str(), upper);
    }
    assert_eq!(FieldType::BooleanField.to_str(), "BOOLEAN_FIELD");
    assert_eq!(FieldType::TableRowListField.to_str(), "TABLE_ROW_LIST_FIELD");
}

#[test]
fn field_type_written_name_reads_back() {
    for (field_type, _, _, _) in ALL {
        assert_eq!(FieldType::parse_str(&field_type.to_str()), Ok(field_type));
    }
}

#[test]
fn field_type_catalog_is_closed() {
    for name in [
        "boolean",
        "",
        "Boolean_Field",
        "booleanfield",
        "BOOLEANFIELD",
        "boolean_field ",
        " boolean_field",
        "Boolean_field",
        "bOOLEAN_FIELD",
        "boolean-field",
        "list_field",
        "text_field",
        "checkbox_list_field",
        "radio_button_list_field",
        "user_boundary_list_field",
        "BooleanFieldBooleanField",
    ] {
        assert_eq!(FieldType::parse_str(name), Err(ParseFieldTypeError));
    }
}
