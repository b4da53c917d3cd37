//! The values of the scalar field kinds.
//!
//! Each kind has a type of two states: a present value, or nil. A document
//! `null` is nil for every kind.

use super::field_type::FieldType;
use super::literal_value::{LiteralValue, ParseLiteralValueError};
use super::value::cascader_value::{CascaderValue, CascaderValueView};
use super::value::file_object::{FileObject, FileObjectView};
use super::value::json_codec::JsonCodec;
use super::value::naive_date_time::NaiveDateTime;
use super::value::number::{Number, NumberView};
use super::value::options_value::{OptionsValue, OptionsValueView};
use super::value::prosemirror::ProsemirrorState;
use super::value::relation_value::{RelationValue, RelationValueView};
use super::value::user_boundary::{UserBoundary, UserBoundaryView};
use super::value::uuid::Uuid;
use crate::json::{as_bool, as_str, boolean, is_null, null, string, JsonModel};
use vstd::prelude::*;

verus! {

/// What a document decodes to for a kind whose present values are read by the
/// codec of `T`: `null` is nil, and anything else must be a `T`.
pub open spec fn nullable_decoded<T: JsonCodec>(json: JsonModel) -> Option<Option<T::V>> {
    if json is Null {
        Some(None)
    } else {
        match T::decoded(json) {
            Ok(value) => Some(Some(value)),
            Err(_) => None,
        }
    }
}

/// The document of a value of a kind whose present values are written by the
/// codec of `T`: nil is `null`.
pub open spec fn nullable_encoded<T: JsonCodec>(value: Option<T::V>) -> JsonModel {
    match value {
        Some(present) => T::encoded(present),
        None => JsonModel::Null,
    }
}

/// The value of a boolean field.
#[derive(Debug, Clone, PartialEq, Eq)]
pub enum BooleanFieldValue {
    Value(bool),
    Nil,
}

/// The value of a cascader field.
#[derive(Debug, Clone, PartialEq, Eq)]
pub enum CascaderFieldValue {
    Value(CascaderValue),
    Nil,
}

/// The value of a checkbox field.
#[derive(Debug, Clone, PartialEq, Eq)]
pub enum CheckboxFieldValue {
    Value(OptionsValue),
    Nil,
}

/// The value of a date-time field.
#[derive(Debug, Clone, PartialEq, Eq)]
pub enum DateTimeFieldValue {
    Value(NaiveDateTime),
    Nil,
}

/// The value of a file field.
#[derive(Debug, Clone, PartialEq, Eq)]
pub enum FileFieldValue {
    Value(FileObject),
    Nil,
}

/// The value of a multiple-line field.
#[derive(Debug, Clone, PartialEq, Eq)]
pub enum MultipleLineFieldValue {
    Value(ProsemirrorState),
    Nil,
}

/// The value of a numeric field.
#[derive(Debug, Clone, PartialEq)]
pub enum NumericFieldValue {
    Value(Number),
    Nil,
}

/// The value of a radio-button field.
#[derive(Debug, Clone, PartialEq, Eq)]
pub enum RadioButtonFieldValue {
    Value(OptionsValue),
    Nil,
}

/// The value of a relation field.
#[derive(Debug, Clone, PartialEq, Eq)]
pub enum RelationFieldValue {
    Value(RelationValue),
    Nil,
}

/// The value of a single-line text field.
#[derive(Debug, Clone, PartialEq, Eq)]
pub enum SingleLineFieldValue {
    Value(String),
    Nil,
}

/// The value of a table-row field.
#[derive(Debug, Clone, PartialEq, Eq)]
pub enum TableRowFieldValue {
    Value(Uuid),
    Nil,
}

/// The value of a user-boundary field.
#[derive(Debug, Clone, PartialEq, Eq)]
pub enum UserBoundaryFieldValue {
    Value(UserBoundary),
    Nil,
}

impl View for BooleanFieldValue {
    type V = Option<bool>;

    open spec fn view(&self) -> Option<bool> {
        match self {
            BooleanFieldValue::Value(value) => Some(*value),
            BooleanFieldValue::Nil => None,
        }
    }
}

impl LiteralValue for BooleanFieldValue {
    open spec fn nil(value: Option<bool>) -> bool {
        value is None
    }

    open spec fn field_type() -> FieldType {
        FieldType::BooleanField
    }

    /// Only a JSON boolean is a present value.
    open spec fn decoded(json: JsonModel) -> Option<Option<bool>> {
        match json {
            JsonModel::Null => Some(None),
            JsonModel::Bool(b) => Some(Some(b)),
            _ => None,
        }
    }

    open spec fn encoded(value: Option<bool>) -> JsonModel {
        match value {
            Some(b) => JsonModel::Bool(b),
            None => JsonModel::Null,
        }
    }

    open spec fn encodable(&self) -> bool {
        true
    }

    open spec fn canonical(&self) -> bool {
        true
    }

    fn is_nil(&self) -> (r: bool) {
        matches!(self, BooleanFieldValue::Nil)
    }

    fn from_json(value: &serde_json::Value) -> (r: Result<Self, ParseLiteralValueError>) {
        if is_null(value) {
            return Ok(BooleanFieldValue::Nil);
        }
        match as_bool(value) {
            Some(v) => Ok(BooleanFieldValue::Value(v)),
            None => Err(ParseLiteralValueError),
        }
    }

    fn to_json(&self) -> (r: serde_json::Value) {
        match self {
            BooleanFieldValue::Value(value) => boolean(*value),
            BooleanFieldValue::Nil => null(),
        }
    }

    fn get_field_type(&self) -> (r: FieldType) {
        FieldType::BooleanField
    }

    proof fn lemma_null_is_nil() {
    }

    proof fn lemma_round_trip(&self) {
    }
}

impl View for CheckboxFieldValue {
    type V = Option<OptionsValueView>;

    open spec fn view(&self) -> Option<OptionsValueView> {
        match self {
            CheckboxFieldValue::Value(value) => Some(value@),
            CheckboxFieldValue::Nil => None,
        }
    }
}

impl LiteralValue for CheckboxFieldValue {
    open spec fn nil(value: Option<OptionsValueView>) -> bool {
        value is None
    }

    open spec fn field_type() -> FieldType {
        FieldType::CheckboxField
    }

    open spec fn decoded(json: JsonModel) -> Option<Option<OptionsValueView>> {
        nullable_decoded::<OptionsValue>(json)
    }

    open spec fn encoded(value: Option<OptionsValueView>) -> JsonModel {
        nullable_encoded::<OptionsValue>(value)
    }

    open spec fn encodable(&self) -> bool {
        match self {
            CheckboxFieldValue::Value(value) => value.encodable(),
            CheckboxFieldValue::Nil => true,
        }
    }

    open spec fn canonical(&self) -> bool {
        match self {
            CheckboxFieldValue::Value(value) => value.canonical(),
            CheckboxFieldValue::Nil => true,
        }
    }

    fn is_nil(&self) -> (r: bool) {
        matches!(self, CheckboxFieldValue::Nil)
    }

    fn from_json(value: &serde_json::Value) -> (r: Result<Self, ParseLiteralValueError>) {
        if is_null(value) {
            return Ok(CheckboxFieldValue::Nil);
        }
        match OptionsValue::from_json(value) {
            Ok(v) => Ok(CheckboxFieldValue::Value(v)),
            Err(_) => Err(ParseLiteralValueError),
        }
    }

    fn to_json(&self) -> (r: serde_json::Value) {
        match self {
            CheckboxFieldValue::Value(value) => value.to_json(),
            CheckboxFieldValue::Nil => null(),
        }
    }

    fn get_field_type(&self) -> (r: FieldType) {
        FieldType::CheckboxField
    }

    proof fn lemma_null_is_nil() {
    }

    proof fn lemma_round_trip(&self) {
        match self {
            CheckboxFieldValue::Value(value) => {
                value.lemma_encoded_is_not_null();
                value.lemma_round_trip();
            },
            CheckboxFieldValue::Nil => {},
        }
    }
}

impl View for CascaderFieldValue {
    type V = Option<CascaderValueView>;

    open spec fn view(&self) -> Option<CascaderValueView> {
        match self {
            CascaderFieldValue::Value(value) => Some(value@),
            CascaderFieldValue::Nil => None,
        }
    }
}

impl LiteralValue for CascaderFieldValue {
    open spec fn nil(value: Option<CascaderValueView>) -> bool {
        value is None
    }

    open spec fn field_type() -> FieldType {
        FieldType::CascaderField
    }

    open spec fn decoded(json: JsonModel) -> Option<Option<CascaderValueView>> {
        nullable_decoded::<CascaderValue>(json)
    }

    open spec fn encoded(value: Option<CascaderValueView>) -> JsonModel {
        nullable_encoded::<CascaderValue>(value)
    }

    open spec fn encodable(&self) -> bool {
        match self {
            CascaderFieldValue::Value(value) => value.encodable(),
            CascaderFieldValue::Nil => true,
        }
    }

    open spec fn canonical(&self) -> bool {
        match self {
            CascaderFieldValue::Value(value) => value.canonical(),
            CascaderFieldValue::Nil => true,
        }
    }

    fn is_nil(&self) -> (r: bool) {
        matches!(self, CascaderFieldValue::Nil)
    }

    fn from_json(value: &serde_json::Value) -> (r: Result<Self, ParseLiteralValueError>) {
        if is_null(value) {
            return Ok(CascaderFieldValue::Nil);
        }
        match CascaderValue::from_json(value) {
            Ok(v) => Ok(CascaderFieldValue::Value(v)),
            Err(_) => Err(ParseLiteralValueError),
        }
    }

    fn to_json(&self) -> (r: serde_json::Value) {
        match self {
            CascaderFieldValue::Value(value) => value.to_json(),
            CascaderFieldValue::Nil => null(),
        }
    }

    fn get_field_type(&self) -> (r: FieldType) {
        FieldType::CascaderField
    }

    proof fn lemma_null_is_nil() {
    }

    proof fn lemma_round_trip(&self) {
        match self {
            CascaderFieldValue::Value(value) => {
                value.lemma_encoded_is_not_null();
                value.lemma_round_trip();
            },
            CascaderFieldValue::Nil => {},
        }
    }
}

impl View for DateTimeFieldValue {
    type V = Option<NaiveDateTime>;

    open spec fn view(&self) -> Option<NaiveDateTime> {
        match self {
            DateTimeFieldValue::Value(value) => Some(value@),
            DateTimeFieldValue::Nil => None,
        }
    }
}

impl LiteralValue for DateTimeFieldValue {
    open spec fn nil(value: Option<NaiveDateTime>) -> bool {
        value is None
    }

    open spec fn field_type() -> FieldType {
        FieldType::DateTimeField
    }

    open spec fn decoded(json: JsonModel) -> Option<Option<NaiveDateTime>> {
        nullable_decoded::<NaiveDateTime>(json)
    }

    open spec fn encoded(value: Option<NaiveDateTime>) -> JsonModel {
        nullable_encoded::<NaiveDateTime>(value)
    }

    open spec fn encodable(&self) -> bool {
        match self {
            DateTimeFieldValue::Value(value) => value.encodable(),
            DateTimeFieldValue::Nil => true,
        }
    }

    open spec fn canonical(&self) -> bool {
        match self {
            DateTimeFieldValue::Value(value) => value.canonical(),
            DateTimeFieldValue::Nil => true,
        }
    }

    fn is_nil(&self) -> (r: bool) {
        matches!(self, DateTimeFieldValue::Nil)
    }

    fn from_json(value: &serde_json::Value) -> (r: Result<Self, ParseLiteralValueError>) {
        if is_null(value) {
            return Ok(DateTimeFieldValue::Nil);
        }
        match NaiveDateTime::from_json(value) {
            Ok(v) => Ok(DateTimeFieldValue::Value(v)),
            Err(_) => Err(ParseLiteralValueError),
        }
    }

    fn to_json(&self) -> (r: serde_json::Value) {
        match self {
            DateTimeFieldValue::Value(value) => value.to_json(),
            DateTimeFieldValue::Nil => null(),
        }
    }

    fn get_field_type(&self) -> (r: FieldType) {
        FieldType::DateTimeField
    }

    proof fn lemma_null_is_nil() {
    }

    proof fn lemma_round_trip(&self) {
        match self {
            DateTimeFieldValue::Value(value) => {
                value.lemma_encoded_is_not_null();
                value.lemma_round_trip();
            },
            DateTimeFieldValue::Nil => {},
        }
    }
}

impl View for FileFieldValue {
    type V = Option<FileObjectView>;

    open spec fn view(&self) -> Option<FileObjectView> {
        match self {
            FileFieldValue::Value(value) => Some(value@),
            FileFieldValue::Nil => None,
        }
    }
}

impl LiteralValue for FileFieldValue {
    open spec fn nil(value: Option<FileObjectView>) -> bool {
        value is None
    }

    open spec fn field_type() -> FieldType {
        FieldType::FileField
    }

    open spec fn decoded(json: JsonModel) -> Option<Option<FileObjectView>> {
        nullable_decoded::<FileObject>(json)
    }

    open spec fn encoded(value: Option<FileObjectView>) -> JsonModel {
        nullable_encoded::<FileObject>(value)
    }

    open spec fn encodable(&self) -> bool {
        match self {
            FileFieldValue::Value(value) => value.encodable(),
            FileFieldValue::Nil => true,
        }
    }

    open spec fn canonical(&self) -> bool {
        match self {
            FileFieldValue::Value(value) => value.canonical(),
            FileFieldValue::Nil => true,
        }
    }

    fn is_nil(&self) -> (r: bool) {
        matches!(self, FileFieldValue::Nil)
    }

    fn from_json(value: &serde_json::Value) -> (r: Result<Self, ParseLiteralValueError>) {
        if is_null(value) {
            return Ok(FileFieldValue::Nil);
        }
        match FileObject::from_json(value) {
            Ok(v) => Ok(FileFieldValue::Value(v)),
            Err(_) => Err(ParseLiteralValueError),
        }
    }

    fn to_json(&self) -> (r: serde_json::Value) {
        match self {
            FileFieldValue::Value(value) => value.to_json(),
            FileFieldValue::Nil => null(),
        }
    }

    fn get_field_type(&self) -> (r: FieldType) {
        FieldType::FileField
    }

    proof fn lemma_null_is_nil() {
    }

    proof fn lemma_round_trip(&self) {
        match self {
            FileFieldValue::Value(value) => {
                value.lemma_encoded_is_not_null();
                value.lemma_round_trip();
            },
            FileFieldValue::Nil => {},
        }
    }
}

impl View for MultipleLineFieldValue {
    type V = Option<JsonModel>;

    open spec fn view(&self) -> Option<JsonModel> {
        match self {
            MultipleLineFieldValue::Value(value) => Some(value@),
            MultipleLineFieldValue::Nil => None,
        }
    }
}

impl LiteralValue for MultipleLineFieldValue {
    open spec fn nil(value: Option<JsonModel>) -> bool {
        value is None
    }

    open spec fn field_type() -> FieldType {
        FieldType::MultipleLineField
    }

    open spec fn decoded(json: JsonModel) -> Option<Option<JsonModel>> {
        nullable_decoded::<ProsemirrorState>(json)
    }

    open spec fn encoded(value: Option<JsonModel>) -> JsonModel {
        nullable_encoded::<ProsemirrorState>(value)
    }

    open spec fn encodable(&self) -> bool {
        match self {
            MultipleLineFieldValue::Value(value) => value.encodable(),
            MultipleLineFieldValue::Nil => true,
        }
    }

    open spec fn canonical(&self) -> bool {
        match self {
            MultipleLineFieldValue::Value(value) => value.canonical(),
            MultipleLineFieldValue::Nil => true,
        }
    }

    fn is_nil(&self) -> (r: bool) {
        matches!(self, MultipleLineFieldValue::Nil)
    }

    fn from_json(value: &serde_json::Value) -> (r: Result<Self, ParseLiteralValueError>) {
        if is_null(value) {
            return Ok(MultipleLineFieldValue::Nil);
        }
        match ProsemirrorState::from_json(value) {
            Ok(v) => Ok(MultipleLineFieldValue::Value(v)),
            Err(_) => Err(ParseLiteralValueError),
        }
    }

    fn to_json(&self) -> (r: serde_json::Value) {
        match self {
            MultipleLineFieldValue::Value(value) => value.to_json(),
            MultipleLineFieldValue::Nil => null(),
        }
    }

    fn get_field_type(&self) -> (r: FieldType) {
        FieldType::MultipleLineField
    }

    proof fn lemma_null_is_nil() {
    }

    proof fn lemma_round_trip(&self) {
        match self {
            MultipleLineFieldValue::Value(value) => {
                value.lemma_encoded_is_not_null();
                value.lemma_round_trip();
            },
            MultipleLineFieldValue::Nil => {},
        }
    }
}

impl View for NumericFieldValue {
    type V = Option<NumberView>;

    open spec fn view(&self) -> Option<NumberView> {
        match self {
            NumericFieldValue::Value(value) => Some(value@),
            NumericFieldValue::Nil => None,
        }
    }
}

impl LiteralValue for NumericFieldValue {
    open spec fn nil(value: Option<NumberView>) -> bool {
        value is None
    }

    open spec fn field_type() -> FieldType {
        FieldType::NumericField
    }

    open spec fn decoded(json: JsonModel) -> Option<Option<NumberView>> {
        nullable_decoded::<Number>(json)
    }

    open spec fn encoded(value: Option<NumberView>) -> JsonModel {
        nullable_encoded::<Number>(value)
    }

    open spec fn encodable(&self) -> bool {
        match self {
            NumericFieldValue::Value(value) => value.encodable(),
            NumericFieldValue::Nil => true,
        }
    }

    open spec fn canonical(&self) -> bool {
        match self {
            NumericFieldValue::Value(value) => value.canonical(),
            NumericFieldValue::Nil => true,
        }
    }

    fn is_nil(&self) -> (r: bool) {
        matches!(self, NumericFieldValue::Nil)
    }

    fn from_json(value: &serde_json::Value) -> (r: Result<Self, ParseLiteralValueError>) {
        if is_null(value) {
            return Ok(NumericFieldValue::Nil);
        }
        match Number::from_json(value) {
            Ok(v) => Ok(NumericFieldValue::Value(v)),
            Err(_) => Err(ParseLiteralValueError),
        }
    }

    fn to_json(&self) -> (r: serde_json::Value) {
        match self {
            NumericFieldValue::Value(value) => value.to_json(),
            NumericFieldValue::Nil => null(),
        }
    }

    fn get_field_type(&self) -> (r: FieldType) {
        FieldType::NumericField
    }

    proof fn lemma_null_is_nil() {
    }

    proof fn lemma_round_trip(&self) {
        match self {
            NumericFieldValue::Value(value) => {
                value.lemma_encoded_is_not_null();
                value.lemma_round_trip();
            },
            NumericFieldValue::Nil => {},
        }
    }
}

impl View for RadioButtonFieldValue {
    type V = Option<OptionsValueView>;

    open spec fn view(&self) -> Option<OptionsValueView> {
        match self {
            RadioButtonFieldValue::Value(value) => Some(value@),
            RadioButtonFieldValue::Nil => None,
        }
    }
}

impl LiteralValue for RadioButtonFieldValue {
    open spec fn nil(value: Option<OptionsValueView>) -> bool {
        value is None
    }

    open spec fn field_type() -> FieldType {
        FieldType::RadioButtonField
    }

    open spec fn decoded(json: JsonModel) -> Option<Option<OptionsValueView>> {
        nullable_decoded::<OptionsValue>(json)
    }

    open spec fn encoded(value: Option<OptionsValueView>) -> JsonModel {
        nullable_encoded::<OptionsValue>(value)
    }

    open spec fn encodable(&self) -> bool {
        match self {
            RadioButtonFieldValue::Value(value) => value.encodable(),
            RadioButtonFieldValue::Nil => true,
        }
    }

    open spec fn canonical(&self) -> bool {
        match self {
            RadioButtonFieldValue::Value(value) => value.canonical(),
            RadioButtonFieldValue::Nil => true,
        }
    }

    fn is_nil(&self) -> (r: bool) {
        matches!(self, RadioButtonFieldValue::Nil)
    }

    fn from_json(value: &serde_json::Value) -> (r: Result<Self, ParseLiteralValueError>) {
        if is_null(value) {
            return Ok(RadioButtonFieldValue::Nil);
        }
        match OptionsValue::from_json(value) {
            Ok(v) => Ok(RadioButtonFieldValue::Value(v)),
            Err(_) => Err(ParseLiteralValueError),
        }
    }

    fn to_json(&self) -> (r: serde_json::Value) {
        match self {
            RadioButtonFieldValue::Value(value) => value.to_json(),
            RadioButtonFieldValue::Nil => null(),
        }
    }

    fn get_field_type(&self) -> (r: FieldType) {
        FieldType::RadioButtonField
    }

    proof fn lemma_null_is_nil() {
    }

    proof fn lemma_round_trip(&self) {
        match self {
            RadioButtonFieldValue::Value(value) => {
                value.lemma_encoded_is_not_null();
                value.lemma_round_trip();
            },
            RadioButtonFieldValue::Nil => {},
        }
    }
}

impl View for RelationFieldValue {
    type V = Option<RelationValueView>;

    open spec fn view(&self) -> Option<RelationValueView> {
        match self {
            RelationFieldValue::Value(value) => Some(value@),
            RelationFieldValue::Nil => None,
        }
    }
}

impl LiteralValue for RelationFieldValue {
    open spec fn nil(value: Option<RelationValueView>) -> bool {
        value is None
    }

    open spec fn field_type() -> FieldType {
        FieldType::RelationField
    }

    open spec fn decoded(json: JsonModel) -> Option<Option<RelationValueView>> {
        nullable_decoded::<RelationValue>(json)
    }

    open spec fn encoded(value: Option<RelationValueView>) -> JsonModel {
        nullable_encoded::<RelationValue>(value)
    }

    open spec fn encodable(&self) -> bool {
        match self {
            RelationFieldValue::Value(value) => value.encodable(),
            RelationFieldValue::Nil => true,
        }
    }

    open spec fn canonical(&self) -> bool {
        match self {
            RelationFieldValue::Value(value) => value.canonical(),
            RelationFieldValue::Nil => true,
        }
    }

    fn is_nil(&self) -> (r: bool) {
        matches!(self, RelationFieldValue::Nil)
    }

    fn from_json(value: &serde_json::Value) -> (r: Result<Self, ParseLiteralValueError>) {
        if is_null(value) {
            return Ok(RelationFieldValue::Nil);
        }
        match RelationValue::from_json(value) {
            Ok(v) => Ok(RelationFieldValue::Value(v)),
            Err(_) => Err(ParseLiteralValueError),
        }
    }

    fn to_json(&self) -> (r: serde_json::Value) {
        match self {
            RelationFieldValue::Value(value) => value.to_json(),
            RelationFieldValue::Nil => null(),
        }
    }

    fn get_field_type(&self) -> (r: FieldType) {
        FieldType::RelationField
    }

    proof fn lemma_null_is_nil() {
    }

    proof fn lemma_round_trip(&self) {
        match self {
            RelationFieldValue::Value(value) => {
                value.lemma_encoded_is_not_null();
                value.lemma_round_trip();
            },
            RelationFieldValue::Nil => {},
        }
    }
}

impl View for SingleLineFieldValue {
    type V = Option<Seq<char>>;

    open spec fn view(&self) -> Option<Seq<char>> {
        match self {
            SingleLineFieldValue::Value(value) => Some(value@),
            SingleLineFieldValue::Nil => None,
        }
    }
}

impl LiteralValue for SingleLineFieldValue {
    open spec fn nil(value: Option<Seq<char>>) -> bool {
        value is None
    }

    open spec fn field_type() -> FieldType {
        FieldType::SingleLineField
    }

    /// Only a JSON string is a present value.
    open spec fn decoded(json: JsonModel) -> Option<Option<Seq<char>>> {
        match json {
            JsonModel::Null => Some(None),
            JsonModel::String(text) => Some(Some(text)),
            _ => None,
        }
    }

    open spec fn encoded(value: Option<Seq<char>>) -> JsonModel {
        match value {
            Some(text) => JsonModel::String(text),
            None => JsonModel::Null,
        }
    }

    open spec fn encodable(&self) -> bool {
        true
    }

    open spec fn canonical(&self) -> bool {
        true
    }

    fn is_nil(&self) -> (r: bool) {
        matches!(self, SingleLineFieldValue::Nil)
    }

    fn from_json(value: &serde_json::Value) -> (r: Result<Self, ParseLiteralValueError>) {
        if is_null(value) {
            return Ok(SingleLineFieldValue::Nil);
        }
        match as_str(value) {
            Some(v) => Ok(SingleLineFieldValue::Value(v.to_owned())),
            None => Err(ParseLiteralValueError),
        }
    }

    fn to_json(&self) -> (r: serde_json::Value) {
        match self {
            SingleLineFieldValue::Value(value) => string(value.clone()),
            SingleLineFieldValue::Nil => null(),
        }
    }

    fn get_field_type(&self) -> (r: FieldType) {
        FieldType::SingleLineField
    }

    proof fn lemma_null_is_nil() {
    }

    proof fn lemma_round_trip(&self) {
    }
}

impl View for TableRowFieldValue {
    type V = Option<Seq<char>>;

    open spec fn view(&self) -> Option<Seq<char>> {
        match self {
            TableRowFieldValue::Value(value) => Some(value@),
            TableRowFieldValue::Nil => None,
        }
    }
}

impl LiteralValue for TableRowFieldValue {
    open spec fn nil(value: Option<Seq<char>>) -> bool {
        value is None
    }

    open spec fn field_type() -> FieldType {
        FieldType::TableRowField
    }

    open spec fn decoded(json: JsonModel) -> Option<Option<Seq<char>>> {
        nullable_decoded::<Uuid>(json)
    }

    open spec fn encoded(value: Option<Seq<char>>) -> JsonModel {
        nullable_encoded::<Uuid>(value)
    }

    open spec fn encodable(&self) -> bool {
        match self {
            TableRowFieldValue::Value(value) => value.encodable(),
            TableRowFieldValue::Nil => true,
        }
    }

    open spec fn canonical(&self) -> bool {
        match self {
            TableRowFieldValue::Value(value) => value.canonical(),
            TableRowFieldValue::Nil => true,
        }
    }

    fn is_nil(&self) -> (r: bool) {
        matches!(self, TableRowFieldValue::Nil)
    }

    fn from_json(value: &serde_json::Value) -> (r: Result<Self, ParseLiteralValueError>) {
        if is_null(value) {
            return Ok(TableRowFieldValue::Nil);
        }
        match Uuid::from_json(value) {
            Ok(v) => Ok(TableRowFieldValue::Value(v)),
            Err(_) => Err(ParseLiteralValueError),
        }
    }

    fn to_json(&self) -> (r: serde_json::Value) {
        match self {
            TableRowFieldValue::Value(value) => value.to_json(),
            TableRowFieldValue::Nil => null(),
        }
    }

    fn get_field_type(&self) -> (r: FieldType) {
        FieldType::TableRowField
    }

    proof fn lemma_null_is_nil() {
    }

    proof fn lemma_round_trip(&self) {
        match self {
            TableRowFieldValue::Value(value) => {
                value.lemma_encoded_is_not_null();
                value.lemma_round_trip();
            },
            TableRowFieldValue::Nil => {},
        }
    }
}

impl View for UserBoundaryFieldValue {
    type V = Option<UserBoundaryView>;

    open spec fn view(&self) -> Option<UserBoundaryView> {
        match self {
            UserBoundaryFieldValue::Value(value) => Some(value@),
            UserBoundaryFieldValue::Nil => None,
        }
    }
}

impl LiteralValue for UserBoundaryFieldValue {
    open spec fn nil(value: Option<UserBoundaryView>) -> bool {
        value is None
    }

    open spec fn field_type() -> FieldType {
        FieldType::UserBoundaryField
    }

    open spec fn decoded(json: JsonModel) -> Option<Option<UserBoundaryView>> {
        nullable_decoded::<UserBoundary>(json)
    }

    open spec fn encoded(value: Option<UserBoundaryView>) -> JsonModel {
        nullable_encoded::<UserBoundary>(value)
    }

    open spec fn encodable(&self) -> bool {
        match self {
            UserBoundaryFieldValue::Value(value) => value.encodable(),
            UserBoundaryFieldValue::Nil => true,
        }
    }

    open spec fn canonical(&self) -> bool {
        match self {
            UserBoundaryFieldValue::Value(value) => value.canonical(),
            UserBoundaryFieldValue::Nil => true,
        }
    }

    fn is_nil(&self) -> (r: bool) {
        matches!(self, UserBoundaryFieldValue::Nil)
    }

    fn from_json(value: &serde_json::Value) -> (r: Result<Self, ParseLiteralValueError>) {
        if is_null(value) {
            return Ok(UserBoundaryFieldValue::Nil);
        }
        match UserBoundary::from_json(value) {
            Ok(v) => Ok(UserBoundaryFieldValue::Value(v)),
            Err(_) => Err(ParseLiteralValueError),
        }
    }

    fn to_json(&self) -> (r: serde_json::Value) {
        match self {
            UserBoundaryFieldValue::Value(value) => value.to_json(),
            UserBoundaryFieldValue::Nil => null(),
        }
    }

    fn get_field_type(&self) -> (r: FieldType) {
        FieldType::UserBoundaryField
    }

    proof fn lemma_null_is_nil() {
    }

    proof fn lemma_round_trip(&self) {
        match self {
            UserBoundaryFieldValue::Value(value) => {
                value.lemma_encoded_is_not_null();
                value.lemma_round_trip();
            },
            UserBoundaryFieldValue::Nil => {},
        }
    }
}

} // verus!
