use field_codec::value_presenter::value::json_codec::JsonCodec;
use field_codec::value_presenter::value::uuid::{ParseUuidError, Uuid, UuidV4};

#[test]
fn test_new() {
    {
        let result = Uuid::new("67e55044-10b1-426f-9247-bb680e5fe0c8");
        let expected = String::from("67e55044-10b1-426f-9247-bb680e5fe0c8");

        assert!(matches!(result, Ok(Uuid(uuid)) if uuid == expected));
    }

    // invalid str
    {
        let result = Uuid::new("67e5504410b1-426f-9247-bb680e5fe0c8");

        assert!(matches!(result, Err(ParseUuidError)));
    }
}

#[test]
fn test_make_uuid_v4() {
    {
        let result = UuidV4::parse_str("67e55044-10b1-426f-9247-bb680e5fe0c8");
        let expected = uuid::Uuid::parse_str("67e55044-10b1-426f-9247-bb680e5fe0c8")
            .unwrap()
            .as_u128();

        assert!(matches!(result, Ok(UuidV4(uuid)) if uuid == expected));
    }

    // invalid str
    {
        let result = UuidV4::parse_str("67e5504410b1-426f-9247-bb680e5fe0c8");

        assert!(matches!(result, Err(_)));
    }
}

#[test]
fn test_uuid_to_str() {
    // simple
    {
        let result = UuidV4::parse_str("67e5504410b1426f9247bb680e5fe0c8");
        let expected = uuid::Uuid::parse_str("67e55044-10b1-426f-9247-bb680e5fe0c8")
            .unwrap()
            .as_u128();

        assert!(matches!(result, Ok(UuidV4(uuid)) if uuid == expected));
    }

    // hyphenated
    {
        let result = UuidV4::parse_str("67e5504410b1-426f-9247-bb680e5fe0c8");

        assert!(matches!(result, Err(_)));
    }
}

#[test]
fn uuid_v4_holds_the_value_most_significant_byte_first() {
    let id = UuidV4::parse_str("67e55044-10b1-426f-9247-bb680e5fe0c8").unwrap();

    assert_eq!(id.0, 0x67e55044_10b1_426f_9247_bb680e5fe0c8u128);
}

#[test]
fn uuid_v4_to_str_is_hyphenated_lower_case() {
    let id = UuidV4(0x67E55044_10B1_426F_9247_BB680E5FE0C8u128);

    assert_eq!(id.to_str(), "67e55044-10b1-426f-9247-bb680e5fe0c8");
    assert_eq!(UuidV4(0).to_str(), "00000000-0000-0000-0000-000000000000");
    assert_eq!(UuidV4(u128::MAX).to_str(), "ffffffff-ffff-ffff-ffff-ffffffffffff");
    assert_eq!(UuidV4(0x0123456789abcdef_0123456789abcdefu128).to_str(), "01234567-89ab-cdef-0123-456789abcdef");
}

#[test]
fn uuid_is_normalized_from_every_accepted_form() {
    let expected = String::from("67e55044-10b1-426f-9247-bb680e5fe0c8");

    for text in [
        "67E55044-10B1-426F-9247-BB680E5FE0C8",
        "67e5504410b1426f9247bb680e5fe0c8",
        "{67e55044-10b1-426f-9247-bb680e5fe0c8}",
        "urn:uuid:67e55044-10b1-426f-9247-bb680e5fe0c8",
    ] {
        assert_eq!(Uuid::new(text), Ok(Uuid(expected.clone())));
    }
}

#[test]
fn uuid_from_json_takes_only_strings() {
    let text = serde_json::Value::String("67E55044-10B1-426F-9247-BB680E5FE0C8".to_string());
    assert_eq!(
        Uuid::from_json(&text),
        Ok(Uuid("67e55044-10b1-426f-9247-bb680e5fe0c8".to_string()))
    );

    assert_eq!(Uuid::from_json(&serde_json::Value::Null), Err(ParseUuidError));
    assert_eq!(Uuid::from_json(&serde_json::Value::Bool(true)), Err(ParseUuidError));
    assert_eq!(
        Uuid::from_json(&serde_json::Value::String("not a uuid".to_string())),
        Err(ParseUuidError)
    );
}

#[test]
fn uuid_round_trip() {
    let id = Uuid::new("67e55044-10b1-426f-9247-bb680e5fe0c8").unwrap();
    let json = id.to_json();

    assert_eq!(json, serde_json::Value::String("67e55044-10b1-426f-9247-bb680e5fe0c8".to_string()));
    assert_eq!(Uuid::from_json(&json), Ok(id));
}

#[test]
fn uuid_v4_text_reads_back_as_the_same_uuid() {
    for bits in [0u128, 5, 0x67e55044_10b1_426f_9247_bb680e5fe0c8, u128::MAX] {
        let id = UuidV4(bits);

        assert_eq!(UuidV4::parse_str(&id.to_str()), Ok(id));
    }

    let id = UuidV4::parse_str("67e5504410b1426f9247bb680e5fe0c8").unwrap();
    assert_eq!(id.to_str(), "67e55044-10b1-426f-9247-bb680e5fe0c8");
    assert_eq!(UuidV4::parse_str(&id.to_str()), Ok(id));
}
