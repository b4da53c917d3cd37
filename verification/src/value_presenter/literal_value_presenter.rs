//! The literal presenter: a value of any field kind, tagged with its kind.

use super::error::{DecodeError, DecodeErrorView};
use super::field_type::FieldType;
use super::literal_list_value::{
    all_encodable, BooleanListFieldValue, CascaderListFieldValue, DateTimeListFieldValue, FileListFieldValue,
    MultipleLineListFieldValue, NumericListFieldValue, RelationListFieldValue,
    SingleLineListFieldValue, TableRowListFieldValue,
};
use super::literal_naive_value::{
    BooleanFieldValue, CascaderFieldValue, CheckboxFieldValue, DateTimeFieldValue,
    FileFieldValue, MultipleLineFieldValue, NumericFieldValue, RadioButtonFieldValue,
    RelationFieldValue, SingleLineFieldValue, TableRowFieldValue, UserBoundaryFieldValue,
};
use super::literal_value::{LiteralValue, ParseLiteralValueError};
use super::value::cascader_value::CascaderValueView;
use super::value::file_object::FileObjectView;
use super::value::json_codec::JsonCodec;
use super::value::naive_date_time::NaiveDateTime;
use super::value::number::NumberView;
use super::value::options_value::OptionsValueView;
use super::value::relation_value::RelationValueView;
use super::value::user_boundary::UserBoundaryView;
use crate::json::{
    as_str, get, insert, is_object, json_model, new_members, no_members, object, string,
    JsonModel,
};
use vstd::prelude::*;

verus! {

/// A value of one of the field kinds, tagged with the kind.
#[derive(Debug, Clone, PartialEq)]
pub enum LiteralValuePresenter {
    BooleanField(BooleanFieldValue),
    CascaderField(CascaderFieldValue),
    CheckboxField(CheckboxFieldValue),
    DateTimeField(DateTimeFieldValue),
    FileField(FileFieldValue),
    MultipleLineField(MultipleLineFieldValue),
    NumericField(NumericFieldValue),
    RadioButtonField(RadioButtonFieldValue),
    RelationField(RelationFieldValue),
    SingleLineField(SingleLineFieldValue),
    TableRowField(TableRowFieldValue),
    UserBoundaryField(UserBoundaryFieldValue),
    // list field
    BooleanListField(BooleanListFieldValue),
    CascaderListField(CascaderListFieldValue),
    DateTimeListField(DateTimeListFieldValue),
    FileListField(FileListFieldValue),
    MultipleLineListField(MultipleLineListFieldValue),
    NumericListField(NumericListFieldValue),
    RelationListField(RelationListFieldValue),
    SingleLineListField(SingleLineListFieldValue),
    TableRowListField(TableRowListFieldValue),
}

/// The mathematical content of a [`LiteralValuePresenter`]: the kind, and the
/// value of that kind, with `None` for nil.
pub enum LiteralView {
    BooleanField(Option<bool>),
    CascaderField(Option<CascaderValueView>),
    CheckboxField(Option<OptionsValueView>),
    DateTimeField(Option<NaiveDateTime>),
    FileField(Option<FileObjectView>),
    MultipleLineField(Option<JsonModel>),
    NumericField(Option<NumberView>),
    RadioButtonField(Option<OptionsValueView>),
    RelationField(Option<RelationValueView>),
    SingleLineField(Option<Seq<char>>),
    TableRowField(Option<Seq<char>>),
    UserBoundaryField(Option<UserBoundaryView>),
    BooleanListField(Option<Seq<Option<bool>>>),
    CascaderListField(Option<Seq<Option<CascaderValueView>>>),
    DateTimeListField(Option<Seq<Option<NaiveDateTime>>>),
    FileListField(Option<Seq<Option<FileObjectView>>>),
    MultipleLineListField(Option<Seq<Option<JsonModel>>>),
    NumericListField(Option<Seq<Option<NumberView>>>),
    RelationListField(Option<Seq<Option<RelationValueView>>>),
    SingleLineListField(Option<Seq<Option<Seq<char>>>>),
    TableRowListField(Option<Seq<Option<Seq<char>>>>),
}

impl LiteralView {
    /// The field type of the presenter.
    pub open spec fn field_type(self) -> FieldType {
        match self {
            LiteralView::BooleanField(_) => FieldType::BooleanField,
            LiteralView::CascaderField(_) => FieldType::CascaderField,
            LiteralView::CheckboxField(_) => FieldType::CheckboxField,
            LiteralView::DateTimeField(_) => FieldType::DateTimeField,
            LiteralView::FileField(_) => FieldType::FileField,
            LiteralView::MultipleLineField(_) => FieldType::MultipleLineField,
            LiteralView::NumericField(_) => FieldType::NumericField,
            LiteralView::RadioButtonField(_) => FieldType::RadioButtonField,
            LiteralView::RelationField(_) => FieldType::RelationField,
            LiteralView::SingleLineField(_) => FieldType::SingleLineField,
            LiteralView::TableRowField(_) => FieldType::TableRowField,
            LiteralView::UserBoundaryField(_) => FieldType::UserBoundaryField,
            LiteralView::BooleanListField(_) => FieldType::BooleanListField,
            LiteralView::CascaderListField(_) => FieldType::CascaderListField,
            LiteralView::DateTimeListField(_) => FieldType::DateTimeListField,
            LiteralView::FileListField(_) => FieldType::FileListField,
            LiteralView::MultipleLineListField(_) => FieldType::MultipleLineListField,
            LiteralView::NumericListField(_) => FieldType::NumericListField,
            LiteralView::RelationListField(_) => FieldType::RelationListField,
            LiteralView::SingleLineListField(_) => FieldType::SingleLineListField,
            LiteralView::TableRowListField(_) => FieldType::TableRowListField,
        }
    }

    /// The nil presenter of a field type.
    pub open spec fn nil_of(field_type: FieldType) -> LiteralView {
        match field_type {
            FieldType::BooleanField => LiteralView::BooleanField(None),
            FieldType::CascaderField => LiteralView::CascaderField(None),
            FieldType::CheckboxField => LiteralView::CheckboxField(None),
            FieldType::DateTimeField => LiteralView::DateTimeField(None),
            FieldType::FileField => LiteralView::FileField(None),
            FieldType::MultipleLineField => LiteralView::MultipleLineField(None),
            FieldType::NumericField => LiteralView::NumericField(None),
            FieldType::RadioButtonField => LiteralView::RadioButtonField(None),
            FieldType::RelationField => LiteralView::RelationField(None),
            FieldType::SingleLineField => LiteralView::SingleLineField(None),
            FieldType::TableRowField => LiteralView::TableRowField(None),
            FieldType::UserBoundaryField => LiteralView::UserBoundaryField(None),
            FieldType::BooleanListField => LiteralView::BooleanListField(None),
            FieldType::CascaderListField => LiteralView::CascaderListField(None),
            FieldType::DateTimeListField => LiteralView::DateTimeListField(None),
            FieldType::FileListField => LiteralView::FileListField(None),
            FieldType::MultipleLineListField => LiteralView::MultipleLineListField(None),
            FieldType::NumericListField => LiteralView::NumericListField(None),
            FieldType::RelationListField => LiteralView::RelationListField(None),
            FieldType::SingleLineListField => LiteralView::SingleLineListField(None),
            FieldType::TableRowListField => LiteralView::TableRowListField(None),
        }
    }

    /// The document that the value of the presenter is written as.
    pub open spec fn value_encoded(self) -> JsonModel {
        match self {
            LiteralView::BooleanField(value) => BooleanFieldValue::encoded(value),
            LiteralView::CascaderField(value) => CascaderFieldValue::encoded(value),
            LiteralView::CheckboxField(value) => CheckboxFieldValue::encoded(value),
            LiteralView::DateTimeField(value) => DateTimeFieldValue::encoded(value),
            LiteralView::FileField(value) => FileFieldValue::encoded(value),
            LiteralView::MultipleLineField(value) => MultipleLineFieldValue::encoded(value),
            LiteralView::NumericField(value) => NumericFieldValue::encoded(value),
            LiteralView::RadioButtonField(value) => RadioButtonFieldValue::encoded(value),
            LiteralView::RelationField(value) => RelationFieldValue::encoded(value),
            LiteralView::SingleLineField(value) => SingleLineFieldValue::encoded(value),
            LiteralView::TableRowField(value) => TableRowFieldValue::encoded(value),
            LiteralView::UserBoundaryField(value) => UserBoundaryFieldValue::encoded(value),
            LiteralView::BooleanListField(value) => BooleanListFieldValue::encoded(value),
            LiteralView::CascaderListField(value) => CascaderListFieldValue::encoded(value),
            LiteralView::DateTimeListField(value) => DateTimeListFieldValue::encoded(value),
            LiteralView::FileListField(value) => FileListFieldValue::encoded(value),
            LiteralView::MultipleLineListField(value) => MultipleLineListFieldValue::encoded(value),
            LiteralView::NumericListField(value) => NumericListFieldValue::encoded(value),
            LiteralView::RelationListField(value) => RelationListFieldValue::encoded(value),
            LiteralView::SingleLineListField(value) => SingleLineListFieldValue::encoded(value),
            LiteralView::TableRowListField(value) => TableRowListFieldValue::encoded(value),
        }
    }

    /// The document that the presenter is written as: an object that gives the
    /// presenter type, the field type in upper snake case, and the value.
    pub open spec fn encoded(self) -> JsonModel {
        JsonModel::Object(
            no_members().insert("type"@, JsonModel::String("literal"@)).insert(
                "field_type"@,
                JsonModel::String(self.field_type().upper_name()),
            ).insert("value"@, self.value_encoded()),
        )
    }

    /// What the `value` member of a presenter document decodes to, for a given
    /// field type. A document without the member is read like one whose member
    /// is `null`. A radio-button value with more than one choice is rejected.
    pub open spec fn value_decoded(field_type: FieldType, json: JsonModel) -> Option<LiteralView> {
        let value = json.member_or_null("value"@);
        if !(json is Object) {
            None
        } else {
            match field_type {
                FieldType::BooleanField => match BooleanFieldValue::decoded(value) {
                    Some(decoded) => Some(LiteralView::BooleanField(decoded)),
                    None => None,
                },
                FieldType::CascaderField => match CascaderFieldValue::decoded(value) {
                    Some(decoded) => Some(LiteralView::CascaderField(decoded)),
                    None => None,
                },
                FieldType::CheckboxField => match CheckboxFieldValue::decoded(value) {
                    Some(decoded) => Some(LiteralView::CheckboxField(decoded)),
                    None => None,
                },
                FieldType::DateTimeField => match DateTimeFieldValue::decoded(value) {
                    Some(decoded) => Some(LiteralView::DateTimeField(decoded)),
                    None => None,
                },
                FieldType::FileField => match FileFieldValue::decoded(value) {
                    Some(decoded) => Some(LiteralView::FileField(decoded)),
                    None => None,
                },
                FieldType::MultipleLineField => match MultipleLineFieldValue::decoded(value) {
                    Some(decoded) => Some(LiteralView::MultipleLineField(decoded)),
                    None => None,
                },
                FieldType::NumericField => match NumericFieldValue::decoded(value) {
                    Some(decoded) => Some(LiteralView::NumericField(decoded)),
                    None => None,
                },
                FieldType::RadioButtonField => match RadioButtonFieldValue::decoded(value) {
                    Some(Some(options)) => if options.count() <= 1 {
                        Some(LiteralView::RadioButtonField(Some(options)))
                    } else {
                        None
                    },
                    Some(None) => Some(LiteralView::RadioButtonField(None)),
                    None => None,
                },
                FieldType::RelationField => match RelationFieldValue::decoded(value) {
                    Some(decoded) => Some(LiteralView::RelationField(decoded)),
                    None => None,
                },
                FieldType::SingleLineField => match SingleLineFieldValue::decoded(value) {
                    Some(decoded) => Some(LiteralView::SingleLineField(decoded)),
                    None => None,
                },
                FieldType::TableRowField => match TableRowFieldValue::decoded(value) {
                    Some(decoded) => Some(LiteralView::TableRowField(decoded)),
                    None => None,
                },
                FieldType::UserBoundaryField => match UserBoundaryFieldValue::decoded(value) {
                    Some(decoded) => Some(LiteralView::UserBoundaryField(decoded)),
                    None => None,
                },
                FieldType::BooleanListField => match BooleanListFieldValue::decoded(value) {
                    Some(decoded) => Some(LiteralView::BooleanListField(decoded)),
                    None => None,
                },
                FieldType::CascaderListField => match CascaderListFieldValue::decoded(value) {
                    Some(decoded) => Some(LiteralView::CascaderListField(decoded)),
                    None => None,
                },
                FieldType::DateTimeListField => match DateTimeListFieldValue::decoded(value) {
                    Some(decoded) => Some(LiteralView::DateTimeListField(decoded)),
                    None => None,
                },
                FieldType::FileListField => match FileListFieldValue::decoded(value) {
                    Some(decoded) => Some(LiteralView::FileListField(decoded)),
                    None => None,
                },
                FieldType::MultipleLineListField => match MultipleLineListFieldValue::decoded(value) {
                    Some(decoded) => Some(LiteralView::MultipleLineListField(decoded)),
                    None => None,
                },
                FieldType::NumericListField => match NumericListFieldValue::decoded(value) {
                    Some(decoded) => Some(LiteralView::NumericListField(decoded)),
                    None => None,
                },
                FieldType::RelationListField => match RelationListFieldValue::decoded(value) {
                    Some(decoded) => Some(LiteralView::RelationListField(decoded)),
                    None => None,
                },
                FieldType::SingleLineListField => match SingleLineListFieldValue::decoded(value) {
                    Some(decoded) => Some(LiteralView::SingleLineListField(decoded)),
                    None => None,
                },
                FieldType::TableRowListField => match TableRowListFieldValue::decoded(value) {
                    Some(decoded) => Some(LiteralView::TableRowListField(decoded)),
                    None => None,
                },
            }
        }
    }

    /// What a document decodes to as a literal presenter, or the error that
    /// rejects it.
    pub open spec fn decoded(json: JsonModel) -> Result<LiteralView, DecodeErrorView> {
        if !(json is Object) {
            Err(DecodeErrorView::InvalidJsonObject(json))
        } else {
            match json.member("field_type"@) {
                Some(JsonModel::String(name)) => match FieldType::from_name(name) {
                    Some(field_type) => match Self::value_decoded(field_type, json) {
                        Some(presenter) => Ok(presenter),
                        None => Err(DecodeErrorView::InvalidValue { field_type, value: json }),
                    },
                    None => Err(DecodeErrorView::UnsupportedFieldType(json)),
                },
                Some(_) => Err(DecodeErrorView::UnsupportedFieldType(json)),
                None => Err(DecodeErrorView::NoFieldType),
            }
        }
    }
}

impl View for LiteralValuePresenter {
    type V = LiteralView;

    open spec fn view(&self) -> LiteralView {
        match self {
            LiteralValuePresenter::BooleanField(value) => LiteralView::BooleanField(value@),
            LiteralValuePresenter::CascaderField(value) => LiteralView::CascaderField(value@),
            LiteralValuePresenter::CheckboxField(value) => LiteralView::CheckboxField(value@),
            LiteralValuePresenter::DateTimeField(value) => LiteralView::DateTimeField(value@),
            LiteralValuePresenter::FileField(value) => LiteralView::FileField(value@),
            LiteralValuePresenter::MultipleLineField(value) => LiteralView::MultipleLineField(value@),
            LiteralValuePresenter::NumericField(value) => LiteralView::NumericField(value@),
            LiteralValuePresenter::RadioButtonField(value) => LiteralView::RadioButtonField(value@),
            LiteralValuePresenter::RelationField(value) => LiteralView::RelationField(value@),
            LiteralValuePresenter::SingleLineField(value) => LiteralView::SingleLineField(value@),
            LiteralValuePresenter::TableRowField(value) => LiteralView::TableRowField(value@),
            LiteralValuePresenter::UserBoundaryField(value) => LiteralView::UserBoundaryField(value@),
            LiteralValuePresenter::BooleanListField(value) => LiteralView::BooleanListField(value@),
            LiteralValuePresenter::CascaderListField(value) => LiteralView::CascaderListField(value@),
            LiteralValuePresenter::DateTimeListField(value) => LiteralView::DateTimeListField(value@),
            LiteralValuePresenter::FileListField(value) => LiteralView::FileListField(value@),
            LiteralValuePresenter::MultipleLineListField(value) => LiteralView::MultipleLineListField(value@),
            LiteralValuePresenter::NumericListField(value) => LiteralView::NumericListField(value@),
            LiteralValuePresenter::RelationListField(value) => LiteralView::RelationListField(value@),
            LiteralValuePresenter::SingleLineListField(value) => LiteralView::SingleLineListField(value@),
            LiteralValuePresenter::TableRowListField(value) => LiteralView::TableRowListField(value@),
        }
    }
}

impl LiteralValuePresenter {
    /// Whether the presenter can be written out.
    pub open spec fn encodable(&self) -> bool {
        match self {
            LiteralValuePresenter::BooleanField(value) => value.encodable(),
            LiteralValuePresenter::CascaderField(value) => value.encodable(),
            LiteralValuePresenter::CheckboxField(value) => value.encodable(),
            LiteralValuePresenter::DateTimeField(value) => value.encodable(),
            LiteralValuePresenter::FileField(value) => value.encodable(),
            LiteralValuePresenter::MultipleLineField(value) => value.encodable(),
            LiteralValuePresenter::NumericField(value) => value.encodable(),
            LiteralValuePresenter::RadioButtonField(value) => value.encodable(),
            LiteralValuePresenter::RelationField(value) => value.encodable(),
            LiteralValuePresenter::SingleLineField(value) => value.encodable(),
            LiteralValuePresenter::TableRowField(value) => value.encodable(),
            LiteralValuePresenter::UserBoundaryField(value) => value.encodable(),
            LiteralValuePresenter::BooleanListField(value) => value.encodable(),
            LiteralValuePresenter::CascaderListField(value) => value.encodable(),
            LiteralValuePresenter::DateTimeListField(value) => value.encodable(),
            LiteralValuePresenter::FileListField(value) => value.encodable(),
            LiteralValuePresenter::MultipleLineListField(value) => value.encodable(),
            LiteralValuePresenter::NumericListField(value) => value.encodable(),
            LiteralValuePresenter::RelationListField(value) => value.encodable(),
            LiteralValuePresenter::SingleLineListField(value) => value.encodable(),
            LiteralValuePresenter::TableRowListField(value) => value.encodable(),
        }
    }

    /// Whether the presenter is well formed: its value is canonical, and a
    /// radio button holds at most one choice.
    pub open spec fn canonical(&self) -> bool {
        match self {
            LiteralValuePresenter::BooleanField(value) => value.canonical(),
            LiteralValuePresenter::CascaderField(value) => value.canonical(),
            LiteralValuePresenter::CheckboxField(value) => value.canonical(),
            LiteralValuePresenter::DateTimeField(value) => value.canonical(),
            LiteralValuePresenter::FileField(value) => value.canonical(),
            LiteralValuePresenter::MultipleLineField(value) => value.canonical(),
            LiteralValuePresenter::NumericField(value) => value.canonical(),
            LiteralValuePresenter::RadioButtonField(value) => value.canonical() && (value@ matches Some(
                options,
            ) ==> options.count() <= 1),
            LiteralValuePresenter::RelationField(value) => value.canonical(),
            LiteralValuePresenter::SingleLineField(value) => value.canonical(),
            LiteralValuePresenter::TableRowField(value) => value.canonical(),
            LiteralValuePresenter::UserBoundaryField(value) => value.canonical(),
            LiteralValuePresenter::BooleanListField(value) => value.canonical(),
            LiteralValuePresenter::CascaderListField(value) => value.canonical(),
            LiteralValuePresenter::DateTimeListField(value) => value.canonical(),
            LiteralValuePresenter::FileListField(value) => value.canonical(),
            LiteralValuePresenter::MultipleLineListField(value) => value.canonical(),
            LiteralValuePresenter::NumericListField(value) => value.canonical(),
            LiteralValuePresenter::RelationListField(value) => value.canonical(),
            LiteralValuePresenter::SingleLineListField(value) => value.canonical(),
            LiteralValuePresenter::TableRowListField(value) => value.canonical(),
        }
    }

    /// Whether the presenter can be written out: every date-time in it names
    /// a day of the calendar and a time of that day, and every floating-point
    /// number in it is held as a floating-point JSON number. Presenters that
    /// were decoded always can.
    pub fn can_encode(&self) -> (r: bool)
        ensures
            r == self.encodable(),
    {
        match self {
            LiteralValuePresenter::DateTimeField(value) => date_time_can_encode(value),
            LiteralValuePresenter::NumericField(value) => numeric_can_encode(value),
            LiteralValuePresenter::DateTimeListField(DateTimeListFieldValue::Value(values)) => {
                date_times_can_encode(values)
            },
            LiteralValuePresenter::NumericListField(NumericListFieldValue::Value(values)) => {
                numbers_can_encode(values)
            },
            _ => true,
        }
    }

    /// The field type of the presenter.
    pub fn get_field_type(&self) -> (r: FieldType)
        ensures
            r == self@.field_type(),
    {
        match self {
            LiteralValuePresenter::BooleanField(value) => value.get_field_type(),
            LiteralValuePresenter::CascaderField(value) => value.get_field_type(),
            LiteralValuePresenter::CheckboxField(value) => value.get_field_type(),
            LiteralValuePresenter::DateTimeField(value) => value.get_field_type(),
            LiteralValuePresenter::FileField(value) => value.get_field_type(),
            LiteralValuePresenter::MultipleLineField(value) => value.get_field_type(),
            LiteralValuePresenter::NumericField(value) => value.get_field_type(),
            LiteralValuePresenter::RadioButtonField(value) => value.get_field_type(),
            LiteralValuePresenter::RelationField(value) => value.get_field_type(),
            LiteralValuePresenter::SingleLineField(value) => value.get_field_type(),
            LiteralValuePresenter::TableRowField(value) => value.get_field_type(),
            LiteralValuePresenter::UserBoundaryField(value) => value.get_field_type(),
            LiteralValuePresenter::BooleanListField(value) => value.get_field_type(),
            LiteralValuePresenter::CascaderListField(value) => value.get_field_type(),
            LiteralValuePresenter::DateTimeListField(value) => value.get_field_type(),
            LiteralValuePresenter::FileListField(value) => value.get_field_type(),
            LiteralValuePresenter::MultipleLineListField(value) => value.get_field_type(),
            LiteralValuePresenter::NumericListField(value) => value.get_field_type(),
            LiteralValuePresenter::RelationListField(value) => value.get_field_type(),
            LiteralValuePresenter::SingleLineListField(value) => value.get_field_type(),
            LiteralValuePresenter::TableRowListField(value) => value.get_field_type(),
        }
    }

    /// Decodes a presenter document.
    ///
    /// The document must be an object. Its `field_type` member must be a string
    /// that spells a field type, and its `value` member, read as `null` where it
    /// is missing, must be a value of that type.
    pub fn from_json(json: &serde_json::Value) -> (r: Result<Self, DecodeError>)
        ensures
            match r {
                Ok(presenter) => LiteralView::decoded(json_model(*json)) == Ok::<
                    LiteralView,
                    DecodeErrorView,
                >(presenter@) && presenter.encodable() && presenter.canonical(),
                Err(error) => LiteralView::decoded(json_model(*json)) == Err::<
                    LiteralView,
                    DecodeErrorView,
                >(error@),
            },
    {
        if !is_object(json) {
            return Err(DecodeError::InvalidJsonObject(json));
        }
        match get(json, "field_type") {
            Some(field_type_value) => match as_str(field_type_value) {
                Some(field_type) => match FieldType::parse_str(field_type) {
                    Ok(field_type) => match make_literal_field_value(&field_type, json) {
                        Ok(presenter) => Ok(presenter),
                        Err(_err) => Err(DecodeError::InvalidValue { field_type, value: json }),
                    },
                    Err(_err) => Err(DecodeError::UnsupportedFieldType(json)),
                },
                None => Err(DecodeError::UnsupportedFieldType(json)),
            },
            None => Err(DecodeError::NoFieldType),
        }
    }

    /// Encodes the presenter as a document.
    pub fn to_json(&self) -> (r: serde_json::Value)
        requires
            self.encodable(),
        ensures
            json_model(r) == self@.encoded(),
    {
        let value = match self {
            LiteralValuePresenter::BooleanField(value) => value.to_json(),
            LiteralValuePresenter::CascaderField(value) => value.to_json(),
            LiteralValuePresenter::CheckboxField(value) => value.to_json(),
            LiteralValuePresenter::DateTimeField(value) => value.to_json(),
            LiteralValuePresenter::FileField(value) => value.to_json(),
            LiteralValuePresenter::MultipleLineField(value) => value.to_json(),
            LiteralValuePresenter::NumericField(value) => value.to_json(),
            LiteralValuePresenter::RadioButtonField(value) => value.to_json(),
            LiteralValuePresenter::RelationField(value) => value.to_json(),
            LiteralValuePresenter::SingleLineField(value) => value.to_json(),
            LiteralValuePresenter::TableRowField(value) => value.to_json(),
            LiteralValuePresenter::UserBoundaryField(value) => value.to_json(),
            LiteralValuePresenter::BooleanListField(value) => value.to_json(),
            LiteralValuePresenter::CascaderListField(value) => value.to_json(),
            LiteralValuePresenter::DateTimeListField(value) => value.to_json(),
            LiteralValuePresenter::FileListField(value) => value.to_json(),
            LiteralValuePresenter::MultipleLineListField(value) => value.to_json(),
            LiteralValuePresenter::NumericListField(value) => value.to_json(),
            LiteralValuePresenter::RelationListField(value) => value.to_json(),
            LiteralValuePresenter::SingleLineListField(value) => value.to_json(),
            LiteralValuePresenter::TableRowListField(value) => value.to_json(),
        };
        let mut members = new_members();
        insert(&mut members, "type", string("literal".to_owned()));
        insert(&mut members, "field_type", string(self.get_field_type().to_str()));
        insert(&mut members, "value", value);
        object(members)
    }

    /// The value, where the presenter is of the boolean kind.
    pub fn as_boolean_field_value(&self) -> (r: Option<&BooleanFieldValue>)
        ensures
            match self {
                LiteralValuePresenter::BooleanField(value) => r == Some(value),
                _ => r is None,
            },
    {
        match self {
            LiteralValuePresenter::BooleanField(value) => Some(value),
            _ => None,
        }
    }

    /// The value, where the presenter is of the cascader kind.
    pub fn as_cascade_field_value(&self) -> (r: Option<&CascaderFieldValue>)
        ensures
            match self {
                LiteralValuePresenter::CascaderField(value) => r == Some(value),
                _ => r is None,
            },
    {
        match self {
            LiteralValuePresenter::CascaderField(value) => Some(value),
            _ => None,
        }
    }

    /// The value, where the presenter is of the checkbox kind.
    pub fn as_checkbox_field_value(&self) -> (r: Option<&CheckboxFieldValue>)
        ensures
            match self {
                LiteralValuePresenter::CheckboxField(value) => r == Some(value),
                _ => r is None,
            },
    {
        match self {
            LiteralValuePresenter::CheckboxField(value) => Some(value),
            _ => None,
        }
    }

    /// The value, where the presenter is of the date-time kind.
    pub fn as_date_time_field_value(&self) -> (r: Option<&DateTimeFieldValue>)
        ensures
            match self {
                LiteralValuePresenter::DateTimeField(value) => r == Some(value),
                _ => r is None,
            },
    {
        match self {
            LiteralValuePresenter::DateTimeField(value) => Some(value),
            _ => None,
        }
    }

    /// The value, where the presenter is of the file kind.
    pub fn as_file_field_value(&self) -> (r: Option<&FileFieldValue>)
        ensures
            match self {
                LiteralValuePresenter::FileField(value) => r == Some(value),
                _ => r is None,
            },
    {
        match self {
            LiteralValuePresenter::FileField(value) => Some(value),
            _ => None,
        }
    }

    /// The value, where the presenter is of the multiple-line kind.
    pub fn as_multiple_line_field_value(&self) -> (r: Option<&MultipleLineFieldValue>)
        ensures
            match self {
                LiteralValuePresenter::MultipleLineField(value) => r == Some(value),
                _ => r is None,
            },
    {
        match self {
            LiteralValuePresenter::MultipleLineField(value) => Some(value),
            _ => None,
        }
    }

    /// The value, where the presenter is of the numeric kind.
    pub fn as_numeric_field_value(&self) -> (r: Option<&NumericFieldValue>)
        ensures
            match self {
                LiteralValuePresenter::NumericField(value) => r == Some(value),
                _ => r is None,
            },
    {
        match self {
            LiteralValuePresenter::NumericField(value) => Some(value),
            _ => None,
        }
    }

    /// The value, where the presenter is of the radio-button kind.
    pub fn as_radio_button_field_value(&self) -> (r: Option<&RadioButtonFieldValue>)
        ensures
            match self {
                LiteralValuePresenter::RadioButtonField(value) => r == Some(value),
                _ => r is None,
            },
    {
        match self {
            LiteralValuePresenter::RadioButtonField(value) => Some(value),
            _ => None,
        }
    }

    /// The value, where the presenter is of the relation kind.
    pub fn as_relation_field_value(&self) -> (r: Option<&RelationFieldValue>)
        ensures
            match self {
                LiteralValuePresenter::RelationField(value) => r == Some(value),
                _ => r is None,
            },
    {
        match self {
            LiteralValuePresenter::RelationField(value) => Some(value),
            _ => None,
        }
    }

    /// The value, where the presenter is of the single-line kind.
    pub fn as_single_line_field_value(&self) -> (r: Option<&SingleLineFieldValue>)
        ensures
            match self {
                LiteralValuePresenter::SingleLineField(value) => r == Some(value),
                _ => r is None,
            },
    {
        match self {
            LiteralValuePresenter::SingleLineField(value) => Some(value),
            _ => None,
        }
    }

    /// The value, where the presenter is of the table-row kind.
    pub fn as_table_row_field_value(&self) -> (r: Option<&TableRowFieldValue>)
        ensures
            match self {
                LiteralValuePresenter::TableRowField(value) => r == Some(value),
                _ => r is None,
            },
    {
        match self {
            LiteralValuePresenter::TableRowField(value) => Some(value),
            _ => None,
        }
    }

    /// The value, where the presenter is of the user-boundary kind.
    pub fn as_user_boundary_field_value(&self) -> (r: Option<&UserBoundaryFieldValue>)
        ensures
            match self {
                LiteralValuePresenter::UserBoundaryField(value) => r == Some(value),
                _ => r is None,
            },
    {
        match self {
            LiteralValuePresenter::UserBoundaryField(value) => Some(value),
            _ => None,
        }
    }

    /// The value, where the presenter is of the boolean list kind.
    pub fn as_boolean_list_field_value(&self) -> (r: Option<&BooleanListFieldValue>)
        ensures
            match self {
                LiteralValuePresenter::BooleanListField(value) => r == Some(value),
                _ => r is None,
            },
    {
        match self {
            LiteralValuePresenter::BooleanListField(value) => Some(value),
            _ => None,
        }
    }

    /// The value, where the presenter is of the cascader list kind.
    pub fn as_cascader_list_field_value(&self) -> (r: Option<&CascaderListFieldValue>)
        ensures
            match self {
                LiteralValuePresenter::CascaderListField(value) => r == Some(value),
                _ => r is None,
            },
    {
        match self {
            LiteralValuePresenter::CascaderListField(value) => Some(value),
            _ => None,
        }
    }

    /// The value, where the presenter is of the date-time list kind.
    pub fn as_date_time_list_field_value(&self) -> (r: Option<&DateTimeListFieldValue>)
        ensures
            match self {
                LiteralValuePresenter::DateTimeListField(value) => r == Some(value),
                _ => r is None,
            },
    {
        match self {
            LiteralValuePresenter::DateTimeListField(value) => Some(value),
            _ => None,
        }
    }

    /// The value, where the presenter is of the file list kind.
    pub fn as_file_list_field_value(&self) -> (r: Option<&FileListFieldValue>)
        ensures
            match self {
                LiteralValuePresenter::FileListField(value) => r == Some(value),
                _ => r is None,
            },
    {
        match self {
            LiteralValuePresenter::FileListField(value) => Some(value),
            _ => None,
        }
    }

    /// The value, where the presenter is of the multiple-line list kind.
    pub fn as_multiple_line_list_field_value(&self) -> (r: Option<&MultipleLineListFieldValue>)
        ensures
            match self {
                LiteralValuePresenter::MultipleLineListField(value) => r == Some(value),
                _ => r is None,
            },
    {
        match self {
            LiteralValuePresenter::MultipleLineListField(value) => Some(value),
            _ => None,
        }
    }

    /// The value, where the presenter is of the numeric list kind.
    pub fn as_numeric_list_field_value(&self) -> (r: Option<&NumericListFieldValue>)
        ensures
            match self {
                LiteralValuePresenter::NumericListField(value) => r == Some(value),
                _ => r is None,
            },
    {
        match self {
            LiteralValuePresenter::NumericListField(value) => Some(value),
            _ => None,
        }
    }

    /// The value, where the presenter is of the relation list kind.
    pub fn as_relation_list_field_value(&self) -> (r: Option<&RelationListFieldValue>)
        ensures
            match self {
                LiteralValuePresenter::RelationListField(value) => r == Some(value),
                _ => r is None,
            },
    {
        match self {
            LiteralValuePresenter::RelationListField(value) => Some(value),
            _ => None,
        }
    }

    /// The value, where the presenter is of the single-line list kind.
    pub fn as_single_line_list_field_value(&self) -> (r: Option<&SingleLineListFieldValue>)
        ensures
            match self {
                LiteralValuePresenter::SingleLineListField(value) => r == Some(value),
                _ => r is None,
            },
    {
        match self {
            LiteralValuePresenter::SingleLineListField(value) => Some(value),
            _ => None,
        }
    }

    /// The value, where the presenter is of the table-row list kind.
    pub fn as_table_row_list_field_value(&self) -> (r: Option<&TableRowListFieldValue>)
        ensures
            match self {
                LiteralValuePresenter::TableRowListField(value) => r == Some(value),
                _ => r is None,
            },
    {
        match self {
            LiteralValuePresenter::TableRowListField(value) => Some(value),
            _ => None,
        }
    }

    /// Null handling: for every field type, a presenter document whose `value`
    /// member is `null` and one that has no `value` member both decode to the
    /// nil value of the type.
    pub proof fn lemma_null_or_missing_value_is_nil(field_type: FieldType, json: JsonModel)
        requires
            json is Object,
            json.member("value"@) is None || json.member("value"@) == Some(JsonModel::Null),
        ensures
            LiteralView::value_decoded(field_type, json) == Some(LiteralView::nil_of(field_type)),
    {
        match field_type {
            FieldType::BooleanField => BooleanFieldValue::lemma_null_is_nil(),
            FieldType::CascaderField => CascaderFieldValue::lemma_null_is_nil(),
            FieldType::CheckboxField => CheckboxFieldValue::lemma_null_is_nil(),
            FieldType::DateTimeField => DateTimeFieldValue::lemma_null_is_nil(),
            FieldType::FileField => FileFieldValue::lemma_null_is_nil(),
            FieldType::MultipleLineField => MultipleLineFieldValue::lemma_null_is_nil(),
            FieldType::NumericField => NumericFieldValue::lemma_null_is_nil(),
            FieldType::RadioButtonField => RadioButtonFieldValue::lemma_null_is_nil(),
            FieldType::RelationField => RelationFieldValue::lemma_null_is_nil(),
            FieldType::SingleLineField => SingleLineFieldValue::lemma_null_is_nil(),
            FieldType::TableRowField => TableRowFieldValue::lemma_null_is_nil(),
            FieldType::UserBoundaryField => UserBoundaryFieldValue::lemma_null_is_nil(),
            FieldType::BooleanListField => BooleanListFieldValue::lemma_null_is_nil(),
            FieldType::CascaderListField => CascaderListFieldValue::lemma_null_is_nil(),
            FieldType::DateTimeListField => DateTimeListFieldValue::lemma_null_is_nil(),
            FieldType::FileListField => FileListFieldValue::lemma_null_is_nil(),
            FieldType::MultipleLineListField => MultipleLineListFieldValue::lemma_null_is_nil(),
            FieldType::NumericListField => NumericListFieldValue::lemma_null_is_nil(),
            FieldType::RelationListField => RelationListFieldValue::lemma_null_is_nil(),
            FieldType::SingleLineListField => SingleLineListFieldValue::lemma_null_is_nil(),
            FieldType::TableRowListField => TableRowListFieldValue::lemma_null_is_nil(),
        }
    }

    /// Round trip: decoding the value document of a well-formed presenter
    /// under its own field type gives the presenter back.
    pub proof fn lemma_value_round_trip(&self, json: JsonModel)
        requires
            self.canonical(),
            json is Object,
            json.member("value"@) == Some(self@.value_encoded()),
        ensures
            LiteralView::value_decoded(self@.field_type(), json) == Some(self@),
    {
        match self {
            LiteralValuePresenter::BooleanField(value) => value.lemma_round_trip(),
            LiteralValuePresenter::CascaderField(value) => value.lemma_round_trip(),
            LiteralValuePresenter::CheckboxField(value) => value.lemma_round_trip(),
            LiteralValuePresenter::DateTimeField(value) => value.lemma_round_trip(),
            LiteralValuePresenter::FileField(value) => value.lemma_round_trip(),
            LiteralValuePresenter::MultipleLineField(value) => value.lemma_round_trip(),
            LiteralValuePresenter::NumericField(value) => value.lemma_round_trip(),
            LiteralValuePresenter::RadioButtonField(value) => value.lemma_round_trip(),
            LiteralValuePresenter::RelationField(value) => value.lemma_round_trip(),
            LiteralValuePresenter::SingleLineField(value) => value.lemma_round_trip(),
            LiteralValuePresenter::TableRowField(value) => value.lemma_round_trip(),
            LiteralValuePresenter::UserBoundaryField(value) => value.lemma_round_trip(),
            LiteralValuePresenter::BooleanListField(value) => value.lemma_round_trip(),
            LiteralValuePresenter::CascaderListField(value) => value.lemma_round_trip(),
            LiteralValuePresenter::DateTimeListField(value) => value.lemma_round_trip(),
            LiteralValuePresenter::FileListField(value) => value.lemma_round_trip(),
            LiteralValuePresenter::MultipleLineListField(value) => value.lemma_round_trip(),
            LiteralValuePresenter::NumericListField(value) => value.lemma_round_trip(),
            LiteralValuePresenter::RelationListField(value) => value.lemma_round_trip(),
            LiteralValuePresenter::SingleLineListField(value) => value.lemma_round_trip(),
            LiteralValuePresenter::TableRowListField(value) => value.lemma_round_trip(),
        }
    }

    /// Round trip: decoding the document of a well-formed presenter gives the
    /// presenter back.
    pub proof fn lemma_round_trip(&self)
        requires
            self.canonical(),
        ensures
            LiteralView::decoded(self@.encoded()) == Ok::<LiteralView, DecodeErrorView>(self@),
    {
        lemma_member_names_differ();
        let json = self@.encoded();
        self@.field_type().lemma_spelling_parses(self@.field_type().upper_name());
        self.lemma_value_round_trip(json);
    }
}

/// The three member names of a presenter document are three different texts.
pub proof fn lemma_member_names_differ()
    ensures
        "type"@ != "field_type"@,
        "type"@ != "value"@,
        "field_type"@ != "value"@,
{
    reveal_strlit("type");
    reveal_strlit("field_type");
    reveal_strlit("value");
    assert("type"@.len() == 4);
    assert("field_type"@.len() == 10);
    assert("value"@.len() == 5);
}

fn date_time_can_encode(value: &DateTimeFieldValue) -> (r: bool)
    ensures
        r == value.encodable(),
{
    match value {
        DateTimeFieldValue::Value(date_time) => date_time.check_valid(),
        DateTimeFieldValue::Nil => true,
    }
}

fn numeric_can_encode(value: &NumericFieldValue) -> (r: bool)
    ensures
        r == value.encodable(),
{
    match value {
        NumericFieldValue::Value(number) => number.can_encode(),
        NumericFieldValue::Nil => true,
    }
}

fn date_times_can_encode(values: &Vec<DateTimeFieldValue>) -> (r: bool)
    ensures
        r == all_encodable(values@),
{
    let mut i: usize = 0;
    while i < values.len()
        invariant
            0 <= i <= values.len(),
            forall|k: int| 0 <= k < i ==> (#[trigger] values@[k]).encodable(),
        decreases values.len() - i,
    {
        if !date_time_can_encode(&values[i]) {
            assert(!values@[i as int].encodable());
            return false;
        }
        i += 1;
    }
    true
}

fn numbers_can_encode(values: &Vec<NumericFieldValue>) -> (r: bool)
    ensures
        r == all_encodable(values@),
{
    let mut i: usize = 0;
    while i < values.len()
        invariant
            0 <= i <= values.len(),
            forall|k: int| 0 <= k < i ==> (#[trigger] values@[k]).encodable(),
        decreases values.len() - i,
    {
        if !numeric_can_encode(&values[i]) {
            assert(!values@[i as int].encodable());
            return false;
        }
        i += 1;
    }
    true
}

fn make_literal_field_value(field_type: &FieldType, value: &serde_json::Value) -> (r: Result<
    LiteralValuePresenter,
    ParseLiteralValueError,
>)
    ensures
        match r {
            Ok(presenter) => LiteralView::value_decoded(*field_type, json_model(*value)) == Some(
                presenter@,
            ) && presenter.encodable() && presenter.canonical(),
            Err(_) => LiteralView::value_decoded(*field_type, json_model(*value)) is None,
        },
{
    if !is_object(value) {
        return Err(ParseLiteralValueError);
    }
    match field_type {
        FieldType::BooleanField => match get(value, "value") {
            Some(value) => match BooleanFieldValue::from_json(value) {
                Ok(field_value) => Ok(LiteralValuePresenter::BooleanField(field_value)),
                Err(error) => Err(error),
            },
            None => Ok(LiteralValuePresenter::BooleanField(BooleanFieldValue::Nil)),
        },
        FieldType::CascaderField => match get(value, "value") {
            Some(value) => match CascaderFieldValue::from_json(value) {
                Ok(field_value) => Ok(LiteralValuePresenter::CascaderField(field_value)),
                Err(error) => Err(error),
            },
            None => Ok(LiteralValuePresenter::CascaderField(CascaderFieldValue::Nil)),
        },
        FieldType::CheckboxField => match get(value, "value") {
            Some(value) => match CheckboxFieldValue::from_json(value) {
                Ok(field_value) => Ok(LiteralValuePresenter::CheckboxField(field_value)),
                Err(error) => Err(error),
            },
            None => Ok(LiteralValuePresenter::CheckboxField(CheckboxFieldValue::Nil)),
        },
        FieldType::DateTimeField => match get(value, "value") {
            Some(value) => match DateTimeFieldValue::from_json(value) {
                Ok(field_value) => Ok(LiteralValuePresenter::DateTimeField(field_value)),
                Err(error) => Err(error),
            },
            None => Ok(LiteralValuePresenter::DateTimeField(DateTimeFieldValue::Nil)),
        },
        FieldType::FileField => match get(value, "value") {
            Some(value) => match FileFieldValue::from_json(value) {
                Ok(field_value) => Ok(LiteralValuePresenter::FileField(field_value)),
                Err(error) => Err(error),
            },
            None => Ok(LiteralValuePresenter::FileField(FileFieldValue::Nil)),
        },
        FieldType::MultipleLineField => match get(value, "value") {
            Some(value) => match MultipleLineFieldValue::from_json(value) {
                Ok(field_value) => Ok(LiteralValuePresenter::MultipleLineField(field_value)),
                Err(error) => Err(error),
            },
            None => Ok(LiteralValuePresenter::MultipleLineField(MultipleLineFieldValue::Nil)),
        },
        FieldType::NumericField => match get(value, "value") {
            Some(value) => match NumericFieldValue::from_json(value) {
                Ok(field_value) => Ok(LiteralValuePresenter::NumericField(field_value)),
                Err(error) => Err(error),
            },
            None => Ok(LiteralValuePresenter::NumericField(NumericFieldValue::Nil)),
        },
        FieldType::RadioButtonField => match get(value, "value") {
            Some(value) => match RadioButtonFieldValue::from_json(value) {
                Ok(field_value) => {
                    let single = match &field_value {
                        RadioButtonFieldValue::Nil => true,
                        RadioButtonFieldValue::Value(options_value) => {
                            options_value.options.len() <= 1 && options_value.count_options() <= 1
                        },
                    };
                    if single {
                        Ok(LiteralValuePresenter::RadioButtonField(field_value))
                    } else {
                        Err(ParseLiteralValueError)
                    }
                },
                Err(error) => Err(error),
            },
            None => Ok(LiteralValuePresenter::RadioButtonField(RadioButtonFieldValue::Nil)),
        },
        FieldType::RelationField => match get(value, "value") {
            Some(value) => match RelationFieldValue::from_json(value) {
                Ok(field_value) => Ok(LiteralValuePresenter::RelationField(field_value)),
                Err(error) => Err(error),
            },
            None => Ok(LiteralValuePresenter::RelationField(RelationFieldValue::Nil)),
        },
        FieldType::SingleLineField => match get(value, "value") {
            Some(value) => match SingleLineFieldValue::from_json(value) {
                Ok(field_value) => Ok(LiteralValuePresenter::SingleLineField(field_value)),
                Err(error) => Err(error),
            },
            None => Ok(LiteralValuePresenter::SingleLineField(SingleLineFieldValue::Nil)),
        },
        FieldType::TableRowField => match get(value, "value") {
            Some(value) => match TableRowFieldValue::from_json(value) {
                Ok(field_value) => Ok(LiteralValuePresenter::TableRowField(field_value)),
                Err(error) => Err(error),
            },
            None => Ok(LiteralValuePresenter::TableRowField(TableRowFieldValue::Nil)),
        },
        FieldType::UserBoundaryField => match get(value, "value") {
            Some(value) => match UserBoundaryFieldValue::from_json(value) {
                Ok(field_value) => Ok(LiteralValuePresenter::UserBoundaryField(field_value)),
                Err(error) => Err(error),
            },
            None => Ok(LiteralValuePresenter::UserBoundaryField(UserBoundaryFieldValue::Nil)),
        },
        FieldType::BooleanListField => match get(value, "value") {
            Some(value) => match BooleanListFieldValue::from_json(value) {
                Ok(field_value) => Ok(LiteralValuePresenter::BooleanListField(field_value)),
                Err(error) => Err(error),
            },
            None => Ok(LiteralValuePresenter::BooleanListField(BooleanListFieldValue::Nil)),
        },
        FieldType::CascaderListField => match get(value, "value") {
            Some(value) => match CascaderListFieldValue::from_json(value) {
                Ok(field_value) => Ok(LiteralValuePresenter::CascaderListField(field_value)),
                Err(error) => Err(error),
            },
            None => Ok(LiteralValuePresenter::CascaderListField(CascaderListFieldValue::Nil)),
        },
        FieldType::DateTimeListField => match get(value, "value") {
            Some(value) => match DateTimeListFieldValue::from_json(value) {
                Ok(field_value) => Ok(LiteralValuePresenter::DateTimeListField(field_value)),
                Err(error) => Err(error),
            },
            None => Ok(LiteralValuePresenter::DateTimeListField(DateTimeListFieldValue::Nil)),
        },
        FieldType::FileListField => match get(value, "value") {
            Some(value) => match FileListFieldValue::from_json(value) {
                Ok(field_value) => Ok(LiteralValuePresenter::FileListField(field_value)),
                Err(error) => Err(error),
            },
            None => Ok(LiteralValuePresenter::FileListField(FileListFieldValue::Nil)),
        },
        FieldType::MultipleLineListField => match get(value, "value") {
            Some(value) => match MultipleLineListFieldValue::from_json(value) {
                Ok(field_value) => Ok(LiteralValuePresenter::MultipleLineListField(field_value)),
                Err(error) => Err(error),
            },
            None => Ok(LiteralValuePresenter::MultipleLineListField(MultipleLineListFieldValue::Nil)),
        },
        FieldType::NumericListField => match get(value, "value") {
            Some(value) => match NumericListFieldValue::from_json(value) {
                Ok(field_value) => Ok(LiteralValuePresenter::NumericListField(field_value)),
                Err(error) => Err(error),
            },
            None => Ok(LiteralValuePresenter::NumericListField(NumericListFieldValue::Nil)),
        },
        FieldType::RelationListField => match get(value, "value") {
            Some(value) => match RelationListFieldValue::from_json(value) {
                Ok(field_value) => Ok(LiteralValuePresenter::RelationListField(field_value)),
                Err(error) => Err(error),
            },
            None => Ok(LiteralValuePresenter::RelationListField(RelationListFieldValue::Nil)),
        },
        FieldType::SingleLineListField => match get(value, "value") {
            Some(value) => match SingleLineListFieldValue::from_json(value) {
                Ok(field_value) => Ok(LiteralValuePresenter::SingleLineListField(field_value)),
                Err(error) => Err(error),
            },
            None => Ok(LiteralValuePresenter::SingleLineListField(SingleLineListFieldValue::Nil)),
        },
        FieldType::TableRowListField => match get(value, "value") {
            Some(value) => match TableRowListFieldValue::from_json(value) {
                Ok(field_value) => Ok(LiteralValuePresenter::TableRowListField(field_value)),
                Err(error) => Err(error),
            },
            None => Ok(LiteralValuePresenter::TableRowListField(TableRowListFieldValue::Nil)),
        },
    }
}

} // verus!
