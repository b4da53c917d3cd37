//! The closed catalog of field types and their textual names.

use crate::text::text_eq;
use vstd::prelude::*;

verus! {

/// The kind of a form field. The catalog is closed: every dispatch over it is
/// an exhaustive match.
#[derive(PartialEq, Eq, Structural, Debug, Clone, Copy)]
pub enum FieldType {
    BooleanField,
    CascaderField,
    CheckboxField,
    DateTimeField,
    FileField,
    MultipleLineField,
    NumericField,
    RadioButtonField,
    RelationField,
    SingleLineField,
    TableRowField,
    UserBoundaryField,
    // list field
    BooleanListField,
    CascaderListField,
    DateTimeListField,
    FileListField,
    MultipleLineListField,
    NumericListField,
    RelationListField,
    SingleLineListField,
    TableRowListField,
}

/// The error of [`FieldType::parse_str`]: the text names no field type.
#[derive(PartialEq, Eq, Structural, Debug, Clone, Copy)]
pub struct ParseFieldTypeError;

impl FieldType {
    /// The name in upper snake case. This is the spelling that is written out.
    pub open spec fn upper_name(self) -> Seq<char> {
        match self {
            FieldType::BooleanField => "BOOLEAN_FIELD"@,
            FieldType::CascaderField => "CASCADER_FIELD"@,
            FieldType::CheckboxField => "CHECKBOX_FIELD"@,
            FieldType::DateTimeField => "DATE_TIME_FIELD"@,
            FieldType::FileField => "FILE_FIELD"@,
            FieldType::MultipleLineField => "MULTIPLE_LINE_FIELD"@,
            FieldType::NumericField => "NUMERIC_FIELD"@,
            FieldType::RadioButtonField => "RADIO_BUTTON_FIELD"@,
            FieldType::RelationField => "RELATION_FIELD"@,
            FieldType::SingleLineField => "SINGLE_LINE_FIELD"@,
            FieldType::TableRowField => "TABLE_ROW_FIELD"@,
            FieldType::UserBoundaryField => "USER_BOUNDARY_FIELD"@,
            FieldType::BooleanListField => "BOOLEAN_LIST_FIELD"@,
            FieldType::CascaderListField => "CASCADER_LIST_FIELD"@,
            FieldType::DateTimeListField => "DATE_TIME_LIST_FIELD"@,
            FieldType::FileListField => "FILE_LIST_FIELD"@,
            FieldType::MultipleLineListField => "MULTIPLE_LINE_LIST_FIELD"@,
            FieldType::NumericListField => "NUMERIC_LIST_FIELD"@,
            FieldType::RelationListField => "RELATION_LIST_FIELD"@,
            FieldType::SingleLineListField => "SINGLE_LINE_LIST_FIELD"@,
            FieldType::TableRowListField => "TABLE_ROW_LIST_FIELD"@,
        }
    }

    /// The name in lower snake case.
    pub open spec fn lower_name(self) -> Seq<char> {
        match self {
            FieldType::BooleanField => "boolean_field"@,
            FieldType::CascaderField => "cascader_field"@,
            FieldType::CheckboxField => "checkbox_field"@,
            FieldType::DateTimeField => "date_time_field"@,
            FieldType::FileField => "file_field"@,
            FieldType::MultipleLineField => "multiple_line_field"@,
            FieldType::NumericField => "numeric_field"@,
            FieldType::RadioButtonField => "radio_button_field"@,
            FieldType::RelationField => "relation_field"@,
            FieldType::SingleLineField => "single_line_field"@,
            FieldType::TableRowField => "table_row_field"@,
            FieldType::UserBoundaryField => "user_boundary_field"@,
            FieldType::BooleanListField => "boolean_list_field"@,
            FieldType::CascaderListField => "cascader_list_field"@,
            FieldType::DateTimeListField => "date_time_list_field"@,
            FieldType::FileListField => "file_list_field"@,
            FieldType::MultipleLineListField => "multiple_line_list_field"@,
            FieldType::NumericListField => "numeric_list_field"@,
            FieldType::RelationListField => "relation_list_field"@,
            FieldType::SingleLineListField => "single_line_list_field"@,
            FieldType::TableRowListField => "table_row_list_field"@,
        }
    }

    /// The name in Pascal case.
    pub open spec fn pascal_name(self) -> Seq<char> {
        match self {
            FieldType::BooleanField => "BooleanField"@,
            FieldType::CascaderField => "CascaderField"@,
            FieldType::CheckboxField => "CheckboxField"@,
            FieldType::DateTimeField => "DateTimeField"@,
            FieldType::FileField => "FileField"@,
            FieldType::MultipleLineField => "MultipleLineField"@,
            FieldType::NumericField => "NumericField"@,
            FieldType::RadioButtonField => "RadioButtonField"@,
            FieldType::RelationField => "RelationField"@,
            FieldType::SingleLineField => "SingleLineField"@,
            FieldType::TableRowField => "TableRowField"@,
            FieldType::UserBoundaryField => "UserBoundaryField"@,
            FieldType::BooleanListField => "BooleanListField"@,
            FieldType::CascaderListField => "CascaderListField"@,
            FieldType::DateTimeListField => "DateTimeListField"@,
            FieldType::FileListField => "FileListField"@,
            FieldType::MultipleLineListField => "MultipleLineListField"@,
            FieldType::NumericListField => "NumericListField"@,
            FieldType::RelationListField => "RelationListField"@,
            FieldType::SingleLineListField => "SingleLineListField"@,
            FieldType::TableRowListField => "TableRowListField"@,
        }
    }

    /// Whether `name` is one of the three accepted spellings of this field type.
    pub open spec fn is_spelled(self, name: Seq<char>) -> bool {
        name == self.pascal_name() || name == self.upper_name() || name == self.lower_name()
    }

    /// The field type that `name` spells, if any. Nothing but the enumerated
    /// spellings is accepted: there is no case folding and no default.
    pub open spec fn from_name(name: Seq<char>) -> Option<FieldType> {
        if FieldType::BooleanField.is_spelled(name) {
            Some(FieldType::BooleanField)
        } else if FieldType::CascaderField.is_spelled(name) {
            Some(FieldType::CascaderField)
        } else if FieldType::CheckboxField.is_spelled(name) {
            Some(FieldType::CheckboxField)
        } else if FieldType::DateTimeField.is_spelled(name) {
            Some(FieldType::DateTimeField)
        } else if FieldType::FileField.is_spelled(name) {
            Some(FieldType::FileField)
        } else if FieldType::MultipleLineField.is_spelled(name) {
            Some(FieldType::MultipleLineField)
        } else if FieldType::NumericField.is_spelled(name) {
            Some(FieldType::NumericField)
        } else if FieldType::RadioButtonField.is_spelled(name) {
            Some(FieldType::RadioButtonField)
        } else if FieldType::RelationField.is_spelled(name) {
            Some(FieldType::RelationField)
        } else if FieldType::SingleLineField.is_spelled(name) {
            Some(FieldType::SingleLineField)
        } else if FieldType::TableRowField.is_spelled(name) {
            Some(FieldType::TableRowField)
        } else if FieldType::UserBoundaryField.is_spelled(name) {
            Some(FieldType::UserBoundaryField)
        } else if FieldType::BooleanListField.is_spelled(name) {
            Some(FieldType::BooleanListField)
        } else if FieldType::CascaderListField.is_spelled(name) {
            Some(FieldType::CascaderListField)
        } else if FieldType::DateTimeListField.is_spelled(name) {
            Some(FieldType::DateTimeListField)
        } else if FieldType::FileListField.is_spelled(name) {
            Some(FieldType::FileListField)
        } else if FieldType::MultipleLineListField.is_spelled(name) {
            Some(FieldType::MultipleLineListField)
        } else if FieldType::NumericListField.is_spelled(name) {
            Some(FieldType::NumericListField)
        } else if FieldType::RelationListField.is_spelled(name) {
            Some(FieldType::RelationListField)
        } else if FieldType::SingleLineListField.is_spelled(name) {
            Some(FieldType::SingleLineListField)
        } else if FieldType::TableRowListField.is_spelled(name) {
            Some(FieldType::TableRowListField)
        } else {
            None
        }
    }

    fn upper_str(&self) -> (r: &'static str)
        ensures
            r@ == self.upper_name(),
    {
        match self {
            FieldType::BooleanField => "BOOLEAN_FIELD",
            FieldType::CascaderField => "CASCADER_FIELD",
            FieldType::CheckboxField => "CHECKBOX_FIELD",
            FieldType::DateTimeField => "DATE_TIME_FIELD",
            FieldType::FileField => "FILE_FIELD",
            FieldType::MultipleLineField => "MULTIPLE_LINE_FIELD",
            FieldType::NumericField => "NUMERIC_FIELD",
            FieldType::RadioButtonField => "RADIO_BUTTON_FIELD",
            FieldType::RelationField => "RELATION_FIELD",
            FieldType::SingleLineField => "SINGLE_LINE_FIELD",
            FieldType::TableRowField => "TABLE_ROW_FIELD",
            FieldType::UserBoundaryField => "USER_BOUNDARY_FIELD",
            FieldType::BooleanListField => "BOOLEAN_LIST_FIELD",
            FieldType::CascaderListField => "CASCADER_LIST_FIELD",
            FieldType::DateTimeListField => "DATE_TIME_LIST_FIELD",
            FieldType::FileListField => "FILE_LIST_FIELD",
            FieldType::MultipleLineListField => "MULTIPLE_LINE_LIST_FIELD",
            FieldType::NumericListField => "NUMERIC_LIST_FIELD",
            FieldType::RelationListField => "RELATION_LIST_FIELD",
            FieldType::SingleLineListField => "SINGLE_LINE_LIST_FIELD",
            FieldType::TableRowListField => "TABLE_ROW_LIST_FIELD",
        }
    }

    fn lower_str(&self) -> (r: &'static str)
        ensures
            r@ == self.lower_name(),
    {
        match self {
            FieldType::BooleanField => "boolean_field",
            FieldType::CascaderField => "cascader_field",
            FieldType::CheckboxField => "checkbox_field",
            FieldType::DateTimeField => "date_time_field",
            FieldType::FileField => "file_field",
            FieldType::MultipleLineField => "multiple_line_field",
            FieldType::NumericField => "numeric_field",
            FieldType::RadioButtonField => "radio_button_field",
            FieldType::RelationField => "relation_field",
            FieldType::SingleLineField => "single_line_field",
            FieldType::TableRowField => "table_row_field",
            FieldType::UserBoundaryField => "user_boundary_field",
            FieldType::BooleanListField => "boolean_list_field",
            FieldType::CascaderListField => "cascader_list_field",
            FieldType::DateTimeListField => "date_time_list_field",
            FieldType::FileListField => "file_list_field",
            FieldType::MultipleLineListField => "multiple_line_list_field",
            FieldType::NumericListField => "numeric_list_field",
            FieldType::RelationListField => "relation_list_field",
            FieldType::SingleLineListField => "single_line_list_field",
            FieldType::TableRowListField => "table_row_list_field",
        }
    }

    fn pascal_str(&self) -> (r: &'static str)
        ensures
            r@ == self.pascal_name(),
    {
        match self {
            FieldType::BooleanField => "BooleanField",
            FieldType::CascaderField => "CascaderField",
            FieldType::CheckboxField => "CheckboxField",
            FieldType::DateTimeField => "DateTimeField",
            FieldType::FileField => "FileField",
            FieldType::MultipleLineField => "MultipleLineField",
            FieldType::NumericField => "NumericField",
            FieldType::RadioButtonField => "RadioButtonField",
            FieldType::RelationField => "RelationField",
            FieldType::SingleLineField => "SingleLineField",
            FieldType::TableRowField => "TableRowField",
            FieldType::UserBoundaryField => "UserBoundaryField",
            FieldType::BooleanListField => "BooleanListField",
            FieldType::CascaderListField => "CascaderListField",
            FieldType::DateTimeListField => "DateTimeListField",
            FieldType::FileListField => "FileListField",
            FieldType::MultipleLineListField => "MultipleLineListField",
            FieldType::NumericListField => "NumericListField",
            FieldType::RelationListField => "RelationListField",
            FieldType::SingleLineListField => "SingleLineListField",
            FieldType::TableRowListField => "TableRowListField",
        }
    }

    fn spells(&self, s: &str) -> (r: bool)
        ensures
            r == self.is_spelled(s@),
    {
        text_eq(s, self.pascal_str()) || text_eq(s, self.upper_str()) || text_eq(
            s,
            self.lower_str(),
        )
    }

    /// Reads a field type from one of its accepted spellings.
    pub fn parse_str(s: &str) -> (r: Result<Self, ParseFieldTypeError>)
        ensures
            r == (match Self::from_name(s@) {
                Some(field_type) => Ok(field_type),
                None => Err(ParseFieldTypeError),
            }),
    {
        if FieldType::BooleanField.spells(s) {
            Ok(FieldType::BooleanField)
        } else if FieldType::CascaderField.spells(s) {
            Ok(FieldType::CascaderField)
        } else if FieldType::CheckboxField.spells(s) {
            Ok(FieldType::CheckboxField)
        } else if FieldType::DateTimeField.spells(s) {
            Ok(FieldType::DateTimeField)
        } else if FieldType::FileField.spells(s) {
            Ok(FieldType::FileField)
        } else if FieldType::MultipleLineField.spells(s) {
            Ok(FieldType::MultipleLineField)
        } else if FieldType::NumericField.spells(s) {
            Ok(FieldType::NumericField)
        } else if FieldType::RadioButtonField.spells(s) {
            Ok(FieldType::RadioButtonField)
        } else if FieldType::RelationField.spells(s) {
            Ok(FieldType::RelationField)
        } else if FieldType::SingleLineField.spells(s) {
            Ok(FieldType::SingleLineField)
        } else if FieldType::TableRowField.spells(s) {
            Ok(FieldType::TableRowField)
        } else if FieldType::UserBoundaryField.spells(s) {
            Ok(FieldType::UserBoundaryField)
        } else if FieldType::BooleanListField.spells(s) {
            Ok(FieldType::BooleanListField)
        } else if FieldType::CascaderListField.spells(s) {
            Ok(FieldType::CascaderListField)
        } else if FieldType::DateTimeListField.spells(s) {
            Ok(FieldType::DateTimeListField)
        } else if FieldType::FileListField.spells(s) {
            Ok(FieldType::FileListField)
        } else if FieldType::MultipleLineListField.spells(s) {
            Ok(FieldType::MultipleLineListField)
        } else if FieldType::NumericListField.spells(s) {
            Ok(FieldType::NumericListField)
        } else if FieldType::RelationListField.spells(s) {
            Ok(FieldType::RelationListField)
        } else if FieldType::SingleLineListField.spells(s) {
            Ok(FieldType::SingleLineListField)
        } else if FieldType::TableRowListField.spells(s) {
            Ok(FieldType::TableRowListField)
        } else {
            Err(ParseFieldTypeError)
        }
    }

    /// The name of the field type as it is written out: upper snake case.
    pub fn to_str(&self) -> (r: String)
        ensures
            r@ == self.upper_name(),
    {
        self.upper_str().to_owned()
    }

    /// No text spells two field types.
    pub proof fn lemma_spelling_is_unique(self, other: FieldType, name: Seq<char>)
        requires
            self.is_spelled(name),
            other.is_spelled(name),
        ensures
            self == other,
    {
        reveal_strlit("BooleanField");
        assert("BooleanField"@.len() == 12 && "BooleanField"@[0] == 'B' && "BooleanField"@[1] == 'o');
        reveal_strlit("BOOLEAN_FIELD");
        assert("BOOLEAN_FIELD"@.len() == 13 && "BOOLEAN_FIELD"@[0] == 'B' && "BOOLEAN_FIELD"@[1] == 'O');
        reveal_strlit("boolean_field");
        assert("boolean_field"@.len() == 13 && "boolean_field"@[0] == 'b' && "boolean_field"@[1] == 'o');
        reveal_strlit("CascaderField");
        assert("CascaderField"@.len() == 13 && "CascaderField"@[0] == 'C' && "CascaderField"@[1] == 'a');
        reveal_strlit("CASCADER_FIELD");
        assert("CASCADER_FIELD"@.len() == 14 && "CASCADER_FIELD"@[0] == 'C' && "CASCADER_FIELD"@[1] == 'A');
        reveal_strlit("cascader_field");
        assert("cascader_field"@.len() == 14 && "cascader_field"@[0] == 'c' && "cascader_field"@[1] == 'a');
        reveal_strlit("CheckboxField");
        assert("CheckboxField"@.len() == 13 && "CheckboxField"@[0] == 'C' && "CheckboxField"@[1] == 'h');
        reveal_strlit("CHECKBOX_FIELD");
        assert("CHECKBOX_FIELD"@.len() == 14 && "CHECKBOX_FIELD"@[0] == 'C' && "CHECKBOX_FIELD"@[1] == 'H');
        reveal_strlit("checkbox_field");
        assert("checkbox_field"@.len() == 14 && "checkbox_field"@[0] == 'c' && "checkbox_field"@[1] == 'h');
        reveal_strlit("DateTimeField");
        assert("DateTimeField"@.len() == 13 && "DateTimeField"@[0] == 'D' && "DateTimeField"@[1] == 'a');
        reveal_strlit("DATE_TIME_FIELD");
        assert("DATE_TIME_FIELD"@.len() == 15 && "DATE_TIME_FIELD"@[0] == 'D' && "DATE_TIME_FIELD"@[1] == 'A');
        reveal_strlit("date_time_field");
        assert("date_time_field"@.len() == 15 && "date_time_field"@[0] == 'd' && "date_time_field"@[1] == 'a');
        reveal_strlit("FileField");
        assert("FileField"@.len() == 9 && "FileField"@[0] == 'F' && "FileField"@[1] == 'i');
        reveal_strlit("FILE_FIELD");
        assert("FILE_FIELD"@.len() == 10 && "FILE_FIELD"@[0] == 'F' && "FILE_FIELD"@[1] == 'I');
        reveal_strlit("file_field");
        assert("file_field"@.len() == 10 && "file_field"@[0] == 'f' && "file_field"@[1] == 'i');
        reveal_strlit("MultipleLineField");
        assert("MultipleLineField"@.len() == 17 && "MultipleLineField"@[0] == 'M' && "MultipleLineField"@[1] == 'u');
        reveal_strlit("MULTIPLE_LINE_FIELD");
        assert("MULTIPLE_LINE_FIELD"@.len() == 19 && "MULTIPLE_LINE_FIELD"@[0] == 'M' && "MULTIPLE_LINE_FIELD"@[1] == 'U');
        reveal_strlit("multiple_line_field");
        assert("multiple_line_field"@.len() == 19 && "multiple_line_field"@[0] == 'm' && "multiple_line_field"@[1] == 'u');
        reveal_strlit("NumericField");
        assert("NumericField"@.len() == 12 && "NumericField"@[0] == 'N' && "NumericField"@[1] == 'u');
        reveal_strlit("NUMERIC_FIELD");
        assert("NUMERIC_FIELD"@.len() == 13 && "NUMERIC_FIELD"@[0] == 'N' && "NUMERIC_FIELD"@[1] == 'U');
        reveal_strlit("numeric_field");
        assert("numeric_field"@.len() == 13 && "numeric_field"@[0] == 'n' && "numeric_field"@[1] == 'u');
        reveal_strlit("RadioButtonField");
        assert("RadioButtonField"@.len() == 16 && "RadioButtonField"@[0] == 'R' && "RadioButtonField"@[1] == 'a');
        reveal_strlit("RADIO_BUTTON_FIELD");
        assert("RADIO_BUTTON_FIELD"@.len() == 18 && "RADIO_BUTTON_FIELD"@[0] == 'R' && "RADIO_BUTTON_FIELD"@[1] == 'A');
        reveal_strlit("radio_button_field");
        assert("radio_button_field"@.len() == 18 && "radio_button_field"@[0] == 'r' && "radio_button_field"@[1] == 'a');
        reveal_strlit("RelationField");
        assert("RelationField"@.len() == 13 && "RelationField"@[0] == 'R' && "RelationField"@[1] == 'e');
        reveal_strlit("RELATION_FIELD");
        assert("RELATION_FIELD"@.len() == 14 && "RELATION_FIELD"@[0] == 'R' && "RELATION_FIELD"@[1] == 'E');
        reveal_strlit("relation_field");
        assert("relation_field"@.len() == 14 && "relation_field"@[0] == 'r' && "relation_field"@[1] == 'e');
        reveal_strlit("SingleLineField");
        assert("SingleLineField"@.len() == 15 && "SingleLineField"@[0] == 'S' && "SingleLineField"@[1] == 'i');
        reveal_strlit("SINGLE_LINE_FIELD");
        assert("SINGLE_LINE_FIELD"@.len() == 17 && "SINGLE_LINE_FIELD"@[0] == 'S' && "SINGLE_LINE_FIELD"@[1] == 'I');
        reveal_strlit("single_line_field");
        assert("single_line_field"@.len() == 17 && "single_line_field"@[0] == 's' && "single_line_field"@[1] == 'i');
        reveal_strlit("TableRowField");
        assert("TableRowField"@.len() == 13 && "TableRowField"@[0] == 'T' && "TableRowField"@[1] == 'a');
        reveal_strlit("TABLE_ROW_FIELD");
        assert("TABLE_ROW_FIELD"@.len() == 15 && "TABLE_ROW_FIELD"@[0] == 'T' && "TABLE_ROW_FIELD"@[1] == 'A');
        reveal_strlit("table_row_field");
        assert("table_row_field"@.len() == 15 && "table_row_field"@[0] == 't' && "table_row_field"@[1] == 'a');
        reveal_strlit("UserBoundaryField");
        assert("UserBoundaryField"@.len() == 17 && "UserBoundaryField"@[0] == 'U' && "UserBoundaryField"@[1] == 's');
        reveal_strlit("USER_BOUNDARY_FIELD");
        assert("USER_BOUNDARY_FIELD"@.len() == 19 && "USER_BOUNDARY_FIELD"@[0] == 'U' && "USER_BOUNDARY_FIELD"@[1] == 'S');
        reveal_strlit("user_boundary_field");
        assert("user_boundary_field"@.len() == 19 && "user_boundary_field"@[0] == 'u' && "user_boundary_field"@[1] == 's');
        reveal_strlit("BooleanListField");
        assert("BooleanListField"@.len() == 16 && "BooleanListField"@[0] == 'B' && "BooleanListField"@[1] == 'o');
        reveal_strlit("BOOLEAN_LIST_FIELD");
        assert("BOOLEAN_LIST_FIELD"@.len() == 18 && "BOOLEAN_LIST_FIELD"@[0] == 'B' && "BOOLEAN_LIST_FIELD"@[1] == 'O');
        reveal_strlit("boolean_list_field");
        assert("boolean_list_field"@.len() == 18 && "boolean_list_field"@[0] == 'b' && "boolean_list_field"@[1] == 'o');
        reveal_strlit("CascaderListField");
        assert("CascaderListField"@.len() == 17 && "CascaderListField"@[0] == 'C' && "CascaderListField"@[1] == 'a');
        reveal_strlit("CASCADER_LIST_FIELD");
        assert("CASCADER_LIST_FIELD"@.len() == 19 && "CASCADER_LIST_FIELD"@[0] == 'C' && "CASCADER_LIST_FIELD"@[1] == 'A');
        reveal_strlit("cascader_list_field");
        assert("cascader_list_field"@.len() == 19 && "cascader_list_field"@[0] == 'c' && "cascader_list_field"@[1] == 'a');
        reveal_strlit("DateTimeListField");
        assert("DateTimeListField"@.len() == 17 && "DateTimeListField"@[0] == 'D' && "DateTimeListField"@[1] == 'a');
        reveal_strlit("DATE_TIME_LIST_FIELD");
        assert("DATE_TIME_LIST_FIELD"@.len() == 20 && "DATE_TIME_LIST_FIELD"@[0] == 'D' && "DATE_TIME_LIST_FIELD"@[1] == 'A');
        reveal_strlit("date_time_list_field");
        assert("date_time_list_field"@.len() == 20 && "date_time_list_field"@[0] == 'd' && "date_time_list_field"@[1] == 'a');
        reveal_strlit("FileListField");
        assert("FileListField"@.len() == 13 && "FileListField"@[0] == 'F' && "FileListField"@[1] == 'i');
        reveal_strlit("FILE_LIST_FIELD");
        assert("FILE_LIST_FIELD"@.len() == 15 && "FILE_LIST_FIELD"@[0] == 'F' && "FILE_LIST_FIELD"@[1] == 'I');
        reveal_strlit("file_list_field");
        assert("file_list_field"@.len() == 15 && "file_list_field"@[0] == 'f' && "file_list_field"@[1] == 'i');
        reveal_strlit("MultipleLineListField");
        assert("MultipleLineListField"@.len() == 21 && "MultipleLineListField"@[0] == 'M' && "MultipleLineListField"@[1] == 'u');
        reveal_strlit("MULTIPLE_LINE_LIST_FIELD");
        assert("MULTIPLE_LINE_LIST_FIELD"@.len() == 24 && "MULTIPLE_LINE_LIST_FIELD"@[0] == 'M' && "MULTIPLE_LINE_LIST_FIELD"@[1] == 'U');
        reveal_strlit("multiple_line_list_field");
        assert("multiple_line_list_field"@.len() == 24 && "multiple_line_list_field"@[0] == 'm' && "multiple_line_list_field"@[1] == 'u');
        reveal_strlit("NumericListField");
        assert("NumericListField"@.len() == 16 && "NumericListField"@[0] == 'N' && "NumericListField"@[1] == 'u');
        reveal_strlit("NUMERIC_LIST_FIELD");
        assert("NUMERIC_LIST_FIELD"@.len() == 18 && "NUMERIC_LIST_FIELD"@[0] == 'N' && "NUMERIC_LIST_FIELD"@[1] == 'U');
        reveal_strlit("numeric_list_field");
        assert("numeric_list_field"@.len() == 18 && "numeric_list_field"@[0] == 'n' && "numeric_list_field"@[1] == 'u');
        reveal_strlit("RelationListField");
        assert("RelationListField"@.len() == 17 && "RelationListField"@[0] == 'R' && "RelationListField"@[1] == 'e');
        reveal_strlit("RELATION_LIST_FIELD");
        assert("RELATION_LIST_FIELD"@.len() == 19 && "RELATION_LIST_FIELD"@[0] == 'R' && "RELATION_LIST_FIELD"@[1] == 'E');
        reveal_strlit("relation_list_field");
        assert("relation_list_field"@.len() == 19 && "relation_list_field"@[0] == 'r' && "relation_list_field"@[1] == 'e');
        reveal_strlit("SingleLineListField");
        assert("SingleLineListField"@.len() == 19 && "SingleLineListField"@[0] == 'S' && "SingleLineListField"@[1] == 'i');
        reveal_strlit("SINGLE_LINE_LIST_FIELD");
        assert("SINGLE_LINE_LIST_FIELD"@.len() == 22 && "SINGLE_LINE_LIST_FIELD"@[0] == 'S' && "SINGLE_LINE_LIST_FIELD"@[1] == 'I');
        reveal_strlit("single_line_list_field");
        assert("single_line_list_field"@.len() == 22 && "single_line_list_field"@[0] == 's' && "single_line_list_field"@[1] == 'i');
        reveal_strlit("TableRowListField");
        assert("TableRowListField"@.len() == 17 && "TableRowListField"@[0] == 'T' && "TableRowListField"@[1] == 'a');
        reveal_strlit("TABLE_ROW_LIST_FIELD");
        assert("TABLE_ROW_LIST_FIELD"@.len() == 20 && "TABLE_ROW_LIST_FIELD"@[0] == 'T' && "TABLE_ROW_LIST_FIELD"@[1] == 'A');
        reveal_strlit("table_row_list_field");
        assert("table_row_list_field"@.len() == 20 && "table_row_list_field"@[0] == 't' && "table_row_list_field"@[1] == 'a');
    }

    /// Closed catalog: a text reads as a field type only where it is one of the
    /// enumerated spellings of that type, and every other text reads as
    /// nothing.
    pub proof fn lemma_catalog_is_closed(name: Seq<char>)
        ensures
            Self::from_name(name) matches Some(field_type) ==> field_type.is_spelled(name),
            Self::from_name(name) is None <==> forall|field_type: FieldType|
                !(#[trigger] field_type.is_spelled(name)),
    {
    }

    /// Every accepted spelling of a field type reads back as that field type.
    pub proof fn lemma_spelling_parses(self, name: Seq<char>)
        requires
            self.is_spelled(name),
        ensures
            Self::from_name(name) == Some(self),
    {
        if FieldType::from_name(name) != Some(self) {
            let other = choose|other: FieldType| other.is_spelled(name) && other != self;
            self.lemma_spelling_is_unique(other, name);
        }
    }

    /// The name that [`FieldType::to_str`] writes reads back as the same field
    /// type.
    pub proof fn lemma_written_name_parses(self)
        ensures
            Self::from_name(self.upper_name()) == Some(self),
    {
        self.lemma_spelling_parses(self.upper_name());
    }
}

} // verus!
