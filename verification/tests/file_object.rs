use field_codec::value_presenter::value::file_object::{FileObject, ParseFileObjectError};
use field_codec::value_presenter::value::json_codec::JsonCodec;
use field_codec::value_presenter::value::uuid::Uuid;
use serde_json::Value;

fn json_of(text: &str) -> Value {
    serde_json::from_str(text).unwrap()
}


#[test]
fn file_object_test_from_json() {
    {
        let json = json_of(r#"{
            "object_uuid": "00000000-0000-0000-0000-ffff00000000",
            "filename": "test.txt",
            "filesize": 123,
            "mimetype": "text/plain"
        }"#);

        let file_object = FileObject::from_json(&json);
        assert!(matches!(
            file_object,
            Ok(FileObject {
                object_uuid,
                filename,
                filesize,
                mimetype,
            }) if object_uuid == Uuid("00000000-0000-0000-0000-ffff00000000".to_string()) && filename == "test.txt" && filesize == 123 && mimetype == "text/plain"
        ));
    }
}

#[test]
fn file_object_test_from_invalid_json() {
    {
        let json = json_of("[]");

        let file_object = FileObject::from_json(&json);
        assert!(matches!(
            file_object,
            Err(ParseFileObjectError::InvalidJson)
        ));
    }

    // invalid object_uuid
    {
        let json = json_of(r#"{"object_uuid": "invalid", "filename": "test.txt", "filesize": 123, "mimetype": "text/plain"}"#);

        let file_object = FileObject::from_json(&json);
        assert!(matches!(
            file_object,
            Err(ParseFileObjectError::InvalidObjectUuid)
        ));
    }

    // invalid filename
    {
        let json = json_of(r#"{"object_uuid": "00000000-0000-0000-0000-ffff00000000", "filename": null,  "filesize": 123, "mimetype": "text/plain"}"#);

        let file_object = FileObject::from_json(&json);
        assert!(matches!(
            file_object,
            Err(ParseFileObjectError::InvalidFilename)
        ));
    }

    // invalid filesize
    {
        let json = json_of(r#"{"object_uuid": "00000000-0000-0000-0000-ffff00000000", "filename": "test.txt", "filesize": null, "mimetype": "text/plain"}"#);

        let file_object = FileObject::from_json(&json);
        assert!(matches!(
            file_object,
            Err(ParseFileObjectError::InvalidFilesize)
        ));
    }

    // invalid mimetype
    {
        let json = json_of(r#"{"object_uuid": "00000000-0000-0000-0000-ffff00000000", "filename": "test.txt", "filesize": 123, "mimetype": null}"#);

        let file_object = FileObject::from_json(&json);
        assert!(matches!(
            file_object,
            Err(ParseFileObjectError::InvalidMimetype)
        ));
    }
}

#[test]
fn file_object_test_to_json() {
    {
        let file_object = FileObject {
            object_uuid: Uuid("00000000-0000-0000-0000-ffff00000000".to_string()),
            filename: "test.txt".to_string(),
            filesize: 123,
            mimetype: "text/plain".to_string(),
        };

        let json = json_of(r#"{
            "object_uuid": "00000000-0000-0000-0000-ffff00000000",
            "filename": "test.txt",
            "filesize": 123,
            "mimetype": "text/plain"
        }"#);

        assert!(file_object.to_json() == json);
    }
}
