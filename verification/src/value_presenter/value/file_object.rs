//! The value of a file field: a reference to a stored file.

use super::cascader_value::uuid_member_decoded;
use super::json_codec::JsonCodec;
use super::uuid::Uuid;
use crate::json::{
    as_str, as_u64, get, insert, is_object, new_members, no_members, object, string, unsigned,
    JsonModel, NumberModel,
};
use vstd::prelude::*;

verus! {

/// The error of the file codec, by the part of the document that is wrong.
#[derive(Debug, PartialEq, Eq)]
pub enum ParseFileObjectError {
    InvalidJson,
    InvalidObjectUuid,
    InvalidFilename,
    InvalidFilesize,
    InvalidMimetype,
}

/// A reference to a stored file. There are no partial references: every part
/// is there.
#[derive(Debug, Clone, PartialEq, Eq)]
pub struct FileObject {
    pub object_uuid: Uuid,
    pub filename: String,
    pub filesize: u64,
    pub mimetype: String,
}

/// The mathematical content of a [`FileObject`].
pub struct FileObjectView {
    pub object_uuid: Seq<char>,
    pub filename: Seq<char>,
    pub filesize: u64,
    pub mimetype: Seq<char>,
}

impl View for FileObject {
    type V = FileObjectView;

    open spec fn view(&self) -> FileObjectView {
        FileObjectView {
            object_uuid: self.object_uuid@,
            filename: self.filename@,
            filesize: self.filesize,
            mimetype: self.mimetype@,
        }
    }
}

impl FileObject {
    /// A reference to the file with the given identity, name, size and type.
    pub fn new(object_uuid: Uuid, filename: String, filesize: u64, mimetype: String) -> (r: Self)
        ensures
            r.object_uuid == object_uuid,
            r.filename == filename,
            r.filesize == filesize,
            r.mimetype == mimetype,
    {
        Self { object_uuid, filename, filesize, mimetype }
    }
}

/// What a member that must hold a string decodes to: its text, or nothing
/// where the member is missing or is not a string.
pub open spec fn text_member_decoded(member: Option<JsonModel>) -> Option<Seq<char>> {
    match member {
        Some(JsonModel::String(text)) => Some(text),
        _ => None,
    }
}

/// What a member that must hold a non-negative integer decodes to: its value,
/// or nothing where the member is missing or is anything else.
pub open spec fn unsigned_member_decoded(member: Option<JsonModel>) -> Option<u64> {
    match member {
        Some(JsonModel::Number(NumberModel::PosInt(n))) => Some(n),
        _ => None,
    }
}

impl JsonCodec for FileObject {
    type Err = ParseFileObjectError;

    /// The parts are read in the order object_uuid, filename, filesize,
    /// mimetype, and the first that is missing or of the wrong type decides
    /// the error.
    open spec fn decoded(json: JsonModel) -> Result<FileObjectView, ParseFileObjectError> {
        if !(json is Object) {
            Err(ParseFileObjectError::InvalidJson)
        } else {
            match uuid_member_decoded(json.member("object_uuid"@)) {
                None => Err(ParseFileObjectError::InvalidObjectUuid),
                Some(object_uuid) => match text_member_decoded(json.member("filename"@)) {
                    None => Err(ParseFileObjectError::InvalidFilename),
                    Some(filename) => match unsigned_member_decoded(json.member("filesize"@)) {
                        None => Err(ParseFileObjectError::InvalidFilesize),
                        Some(filesize) => match text_member_decoded(json.member("mimetype"@)) {
                            None => Err(ParseFileObjectError::InvalidMimetype),
                            Some(mimetype) => Ok(
                                FileObjectView { object_uuid, filename, filesize, mimetype },
                            ),
                        },
                    },
                },
            }
        }
    }

    open spec fn encoded(value: FileObjectView) -> JsonModel {
        JsonModel::Object(
            no_members().insert("object_uuid"@, Uuid::encoded(value.object_uuid)).insert(
                "filename"@,
                JsonModel::String(value.filename),
            ).insert("filesize"@, JsonModel::Number(NumberModel::PosInt(value.filesize))).insert(
                "mimetype"@,
                JsonModel::String(value.mimetype),
            ),
        )
    }

    open spec fn encodable(&self) -> bool {
        true
    }

    open spec fn canonical(&self) -> bool {
        self.object_uuid.canonical()
    }

    fn from_json(value: &serde_json::Value) -> (r: Result<Self, ParseFileObjectError>) {
        if !is_object(value) {
            return Err(ParseFileObjectError::InvalidJson);
        }
        let object_uuid = match get(value, "object_uuid") {
            Some(object_uuid) => match Uuid::from_json(object_uuid) {
                Ok(uuid) => uuid,
                Err(_) => return Err(ParseFileObjectError::InvalidObjectUuid),
            },
            None => return Err(ParseFileObjectError::InvalidObjectUuid),
        };
        let filename = match get(value, "filename") {
            Some(filename) => match as_str(filename) {
                Some(filename) => filename.to_owned(),
                None => return Err(ParseFileObjectError::InvalidFilename),
            },
            None => return Err(ParseFileObjectError::InvalidFilename),
        };
        let filesize = match get(value, "filesize") {
            Some(filesize) => match as_u64(filesize) {
                Some(filesize) => filesize,
                None => return Err(ParseFileObjectError::InvalidFilesize),
            },
            None => return Err(ParseFileObjectError::InvalidFilesize),
        };
        let mimetype = match get(value, "mimetype") {
            Some(mimetype) => match as_str(mimetype) {
                Some(mimetype) => mimetype.to_owned(),
                None => return Err(ParseFileObjectError::InvalidMimetype),
            },
            None => return Err(ParseFileObjectError::InvalidMimetype),
        };
        Ok(FileObject { object_uuid, filename, filesize, mimetype })
    }

    fn to_json(&self) -> (r: serde_json::Value) {
        let mut members = new_members();
        insert(&mut members, "object_uuid", self.object_uuid.to_json());
        insert(&mut members, "filename", string(self.filename.clone()));
        insert(&mut members, "filesize", unsigned(self.filesize));
        insert(&mut members, "mimetype", string(self.mimetype.clone()));
        object(members)
    }

    proof fn lemma_encoded_is_not_null(&self) {
    }

    proof fn lemma_round_trip(&self) {
        reveal_strlit("object_uuid");
        reveal_strlit("filename");
        reveal_strlit("filesize");
        reveal_strlit("mimetype");
        assert("object_uuid"@.len() == 11);
        assert("filename"@.len() == 8 && "filename"@[4] == 'n');
        assert("filesize"@.len() == 8 && "filesize"@[4] == 's' && "filesize"@[0] == 'f');
        assert("mimetype"@.len() == 8 && "mimetype"@[0] == 'm');
        self.object_uuid.lemma_round_trip();
    }
}

} // verus!
