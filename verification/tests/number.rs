use field_codec::value_presenter::value::json_codec::JsonCodec;
use field_codec::value_presenter::value::number::{Number, ParseNumberError};
use serde_json::{Number as JsonNumber, Value};


#[test]
fn number_test_from_json() {
    {
        let json: Value = serde_json::from_str("1").unwrap();

        let number = Number::from_json(&json).unwrap();

        assert!(matches!(number, Number::Integer(1)));
    }

    // float
    {
        let json: Value = serde_json::from_str("1.1").unwrap();

        let number = Number::from_json(&json).unwrap();

        assert!(matches!(number, Number::Float(f) if f.as_f64() == Some(1.1)));
    }

    // signed int
    {
        let json: Value = serde_json::from_str("-1").unwrap();

        let number = Number::from_json(&json).unwrap();

        assert!(matches!(number, Number::Integer(-1)));
    }
}

#[test]
fn number_test_to_json() {
    {
        let number = Number::Integer(-1);
        assert!(number.to_json() == Value::Number(JsonNumber::from(-1)));
    }

    {
        let number = Number::Float(Value::from(1.1));
        assert!(number.to_json() == Value::Number(JsonNumber::from_f64(1.1).unwrap()));
    }

    {
        let number = Number::Integer(-1);
        assert!(number.to_json() == Value::Number(JsonNumber::from(-1)));
    }
}

#[test]
fn number_picks_the_first_form_that_fits() {
    // unsigned before signed before floating point
    let json: Value = serde_json::from_str("9223372036854775807").unwrap();
    assert_eq!(Number::from_json(&json), Ok(Number::Integer(i64::MAX)));

    let json: Value = serde_json::from_str("-9223372036854775808").unwrap();
    assert_eq!(Number::from_json(&json), Ok(Number::Integer(i64::MIN)));

    let json: Value = serde_json::from_str("0").unwrap();
    assert_eq!(Number::from_json(&json), Ok(Number::Integer(0)));

    // an integer is never widened to a floating-point value
    let json: Value = serde_json::from_str("123").unwrap();
    assert!(matches!(Number::from_json(&json), Ok(Number::Integer(123))));

    let json: Value = serde_json::from_str("123.0").unwrap();
    assert!(matches!(Number::from_json(&json), Ok(Number::Float(f)) if f.as_f64() == Some(123.0)));
}

#[test]
fn number_above_the_signed_range_is_rejected() {
    // such an integer fits no form: it is neither changed nor widened
    let json: Value = serde_json::from_str("18446744073709551615").unwrap();
    assert_eq!(Number::from_json(&json), Err(ParseNumberError));

    let json: Value = serde_json::from_str("9223372036854775808").unwrap();
    assert_eq!(Number::from_json(&json), Err(ParseNumberError));

    let json: Value = serde_json::from_str("9223372036854775807").unwrap();
    assert_eq!(Number::from_json(&json), Ok(Number::Integer(i64::MAX)));
}

#[test]
fn number_that_is_no_floating_point_number_cannot_be_written() {
    assert!(Number::Integer(i64::MIN).can_encode());
    assert!(Number::Float(Value::from(1.5)).can_encode());
    assert!(Number::Float(Value::from(-0.0)).can_encode());

    // what is made of a value that is not finite is no number
    assert!(!Number::Float(Value::from(f64::NAN)).can_encode());
    assert!(!Number::Float(Value::from(f64::INFINITY)).can_encode());
    // an integer, a large integer and a text are no floating-point numbers
    assert!(!Number::Float(Value::from(1)).can_encode());
    assert!(!Number::Float(Value::from(-1)).can_encode());
    assert!(!Number::Float(Value::from(u64::MAX)).can_encode());
    assert!(!Number::Float(Value::from("1.5")).can_encode());
}

#[test]
fn number_rejects_what_is_not_a_json_number() {
    for text in [r#""1""#, "null", "true", "[1]", "{}"] {
        let json: Value = serde_json::from_str(text).unwrap();
        assert_eq!(Number::from_json(&json), Err(ParseNumberError));
    }
}

#[test]
fn number_round_trip() {
    for text in ["0", "1", "-1", "123.5", "-0.25", "1e300"] {
        let json: Value = serde_json::from_str(text).unwrap();
        let number = Number::from_json(&json).unwrap();

        assert_eq!(number.to_json(), json);
        assert_eq!(Number::from_json(&number.to_json()), Ok(number));
    }
}
