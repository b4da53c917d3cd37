use field_codec::value_presenter::literal_list_value::{
    BooleanListFieldValue, CascaderListFieldValue, DateTimeListFieldValue,
    NumericListFieldValue, SingleLineListFieldValue, TableRowListFieldValue,
};
use field_codec::value_presenter::literal_naive_value::{
    BooleanFieldValue, CascaderFieldValue, DateTimeFieldValue, NumericFieldValue,
    SingleLineFieldValue, TableRowFieldValue,
};
use field_codec::value_presenter::literal_value::LiteralValue;
use field_codec::value_presenter::value::cascader_value::CascaderValue;
use field_codec::value_presenter::value::naive_date_time::NaiveDateTime;
use field_codec::value_presenter::value::number::Number;
use field_codec::value_presenter::value::uuid::Uuid;
use serde_json::Value;

fn json_of(text: &str) -> Value {
    serde_json::from_str(text).unwrap()
}


#[test]
fn test_boolean_list_field_value_from_json() {
    {
        let value = json_of("[true, false, null]");
        let result = BooleanListFieldValue::from_json(&value);

        assert!(result.is_ok());

        let result = result.unwrap();

        assert!(matches!(
            result,
            BooleanListFieldValue::Value(values) if values.as_slice() == vec![
                BooleanFieldValue::Value(true),
                BooleanFieldValue::Value(false),
                BooleanFieldValue::Nil,
            ]
        ));
    }

    // null
    {
        let value = json_of("null");
        let result = BooleanListFieldValue::from_json(&value);

        assert!(result.is_ok());

        let result = result.unwrap();

        assert!(matches!(result, BooleanListFieldValue::Nil));
    }
}

#[test]
fn test_cascader_list_field_value_from_json() {
    {
        let value = json_of(r#"[
                          {
                              "options_table_uuid": "00000000-0000-0000-0000-000000000000",
                              "row_uuid": "00000000-0000-0000-0000-000000000001"
                          },
                          null
        ]"#);
        let result = CascaderListFieldValue::from_json(&value);

        assert!(result.is_ok());

        assert!(matches!(
            result.unwrap(),
            CascaderListFieldValue::Value(values) if values.as_slice() == vec![
                CascaderFieldValue::Value(CascaderValue {
                    options_table_uuid: Uuid("00000000-0000-0000-0000-000000000000".to_string()),
                    row_uuid: Uuid("00000000-0000-0000-0000-000000000001".to_string()),
                }),
                CascaderFieldValue::Nil,
            ]
        ));
    }

    // null
    {
        let value = json_of("null");
        let result = CascaderListFieldValue::from_json(&value);

        assert!(result.is_ok());

        assert!(matches!(result.unwrap(), CascaderListFieldValue::Nil));
    }
}

#[test]
fn test_date_time_list_field_value_from_json() {
    {
        let value = json_of(r#"["2020-01-01T00:00:00Z", null]"#);
        let result = DateTimeListFieldValue::from_json(&value);

        assert!(result.is_ok());

        let result = result.unwrap();

        assert!(matches!(
            result,
            DateTimeListFieldValue::Value(values) if values.as_slice() == vec![
                DateTimeFieldValue::Value(NaiveDateTime::new(2020, 1, 1, 0, 0, 0, 0)),
                DateTimeFieldValue::Nil,
            ]
        ));
    }

    // null
    {
        let value = json_of("null");
        let result = DateTimeListFieldValue::from_json(&value);

        assert!(result.is_ok());

        let result = result.unwrap();

        assert!(matches!(result, DateTimeListFieldValue::Nil));
    }
}

#[test]
fn test_numeric_list_field_value_from_json() {
    {
        let value = json_of("[1, 1.01, null]");
        let result = NumericListFieldValue::from_json(&value);

        assert!(result.is_ok());

        let result = result.unwrap();

        assert!(matches!(
            result,
            NumericListFieldValue::Value(values) if values.as_slice() == vec![
                NumericFieldValue::Value(Number::Integer(1)),
                NumericFieldValue::Value(Number::Float(Value::from(1.01))),
                NumericFieldValue::Nil,
            ]
        ));
    }

    // null
    {
        let value = json_of("null");
        let result = NumericListFieldValue::from_json(&value);

        assert!(result.is_ok());

        let result = result.unwrap();

        assert!(matches!(result, NumericListFieldValue::Nil));
    }
}

#[test]
fn test_single_line_list_field_value_from_json() {
    {
        let value = json_of(r#"["foo", "bar", null]"#);
        let result = SingleLineListFieldValue::from_json(&value);

        assert!(result.is_ok());

        let result = result.unwrap();

        assert!(matches!(
            result,
            SingleLineListFieldValue::Value(values) if values.as_slice() == vec![
                SingleLineFieldValue::Value("foo".to_string()),
                SingleLineFieldValue::Value("bar".to_string()),
                SingleLineFieldValue::Nil,
            ]
        ));
    }

    // null
    {
        let value = json_of("null");
        let result = SingleLineListFieldValue::from_json(&value);

        assert!(result.is_ok());

        let result = result.unwrap();

        assert!(matches!(result, SingleLineListFieldValue::Nil));
    }
}

#[test]
fn test_table_row_list_field_value_from_json() {
    {
        let value = json_of(r#"["67e55044-10b1-426f-9247-bb680e5fe0c8", null]"#);
        let result = TableRowListFieldValue::from_json(&value);

        assert!(result.is_ok());

        let result = result.unwrap();

        assert!(matches!(
            result,
            TableRowListFieldValue::Value(values) if values.as_slice() == vec![
                TableRowFieldValue::Value(Uuid("67e55044-10b1-426f-9247-bb680e5fe0c8".to_string())),
                TableRowFieldValue::Nil,
            ]
        ));
    }

    // null
    {
        let value = json_of("null");
        let result = TableRowListFieldValue::from_json(&value);

        assert!(result.is_ok());

        let result = result.unwrap();

        assert!(matches!(result, TableRowListFieldValue::Nil));
    }
}
