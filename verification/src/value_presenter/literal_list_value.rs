//! The values of the list field kinds.
//!
//! A list value is a sequence of values of the scalar kind, each of which may
//! be nil, and the list as a whole may be nil too. A nil list is not an empty
//! list.

use super::field_type::FieldType;
use super::literal_naive_value::{
    BooleanFieldValue, CascaderFieldValue, DateTimeFieldValue, FileFieldValue,
    MultipleLineFieldValue, NumericFieldValue, RelationFieldValue, SingleLineFieldValue,
    TableRowFieldValue,
};
use super::literal_value::{LiteralValue, ParseLiteralValueError};
use super::value::cascader_value::CascaderValueView;
use super::value::file_object::FileObjectView;
use super::value::naive_date_time::NaiveDateTime;
use super::value::number::NumberView;
use super::value::relation_value::RelationValueView;
use crate::json::{array, as_array, is_null, json_model, json_models, null, JsonModel};
use vstd::prelude::*;

verus! {

/// The views of a sequence of values, in order.
pub open spec fn views<T: View>(values: Seq<T>) -> Seq<T::V> {
    values.map_values(|value: T| value@)
}

/// What a document decodes to as a list of `T`: it must be an array, and every
/// element must decode as a `T`. One rejected element rejects the list.
pub open spec fn list_decoded<T: LiteralValue>(json: JsonModel) -> Option<Seq<T::V>> {
    match json {
        JsonModel::Array(items) => if forall|i: int|
            0 <= i < items.len() ==> (#[trigger] T::decoded(items[i])) is Some {
            Some(items.map_values(|item: JsonModel| T::decoded(item).unwrap()))
        } else {
            None
        },
        _ => None,
    }
}

/// What a document decodes to for a list kind whose elements are of kind `T`:
/// `null` is the nil list, and anything else must be a list of `T`.
pub open spec fn nullable_list_decoded<T: LiteralValue>(json: JsonModel) -> Option<
    Option<Seq<T::V>>,
> {
    if json is Null {
        Some(None)
    } else {
        match list_decoded::<T>(json) {
            Some(values) => Some(Some(values)),
            None => None,
        }
    }
}

/// The document of a value of a list kind whose elements are of kind `T`: the
/// nil list is `null`.
pub open spec fn nullable_list_encoded<T: LiteralValue>(value: Option<Seq<T::V>>) -> JsonModel {
    match value {
        Some(values) => list_encoded::<T>(values),
        None => JsonModel::Null,
    }
}

/// The document of a list of `T`: the array of the elements' documents.
pub open spec fn list_encoded<T: LiteralValue>(values: Seq<T::V>) -> JsonModel {
    JsonModel::Array(values.map_values(|value: T::V| T::encoded(value)))
}

/// Whether every element of a list can be written out.
pub open spec fn all_encodable<T: LiteralValue>(values: Seq<T>) -> bool {
    forall|i: int| 0 <= i < values.len() ==> (#[trigger] values[i]).encodable()
}

/// Whether every element of a list is canonical.
pub open spec fn all_canonical<T: LiteralValue>(values: Seq<T>) -> bool {
    forall|i: int| 0 <= i < values.len() ==> (#[trigger] values[i]).canonical()
}

/// Round trip for lists: decoding the document of a list of canonical values
/// gives the list back.
pub proof fn lemma_list_round_trip<T: LiteralValue>(values: Seq<T>)
    requires
        all_canonical(values),
    ensures
        list_decoded::<T>(list_encoded::<T>(views(values))) == Some(views(values)),
{
    let items = views(values).map_values(|value: T::V| T::encoded(value));
    assert forall|i: int| 0 <= i < items.len() implies (#[trigger] T::decoded(items[i]))
        == Some(views(values)[i]) by {
        values[i].lemma_round_trip();
    }
    assert(items.map_values(|item: JsonModel| T::decoded(item).unwrap()) =~= views(values));
}

fn list_from_json<T: LiteralValue>(value: &serde_json::Value) -> (r: Result<
    Vec<T>,
    ParseLiteralValueError,
>)
    ensures
        match r {
            Ok(values) => list_decoded::<T>(json_model(*value)) == Some(views(values@))
                && all_encodable(values@) && all_canonical(values@),
            Err(_) => list_decoded::<T>(json_model(*value)) is None,
        },
{
    match as_array(value) {
        Some(values) => {
            let ghost items = json_models(values@);
            let mut result: Vec<T> = Vec::new();
            let mut i: usize = 0;
            while i < values.len()
                invariant
                    0 <= i <= values.len(),
                    items == json_models(values@),
                    json_model(*value) == JsonModel::Array(items),
                    result@.len() == i,
                    all_encodable(result@),
                    all_canonical(result@),
                    forall|k: int|
                        0 <= k < i ==> (#[trigger] T::decoded(items[k])) == Some(result@[k]@),
                decreases values.len() - i,
            {
                match T::from_json(&values[i]) {
                    Ok(v) => result.push(v),
                    Err(_err) => {
                        assert(T::decoded(items[i as int]) is None);
                        return Err(ParseLiteralValueError);
                    },
                }
                i += 1;
            }
            assert(items.map_values(|item: JsonModel| T::decoded(item).unwrap()) =~= views(
                result@,
            ));
            Ok(result)
        },
        None => Err(ParseLiteralValueError),
    }
}

fn list_to_json<T: LiteralValue>(values: &Vec<T>) -> (r: serde_json::Value)
    requires
        all_encodable(values@),
    ensures
        json_model(r) == list_encoded::<T>(views(values@)),
{
    let mut result: Vec<serde_json::Value> = Vec::new();
    let mut i: usize = 0;
    while i < values.len()
        invariant
            0 <= i <= values.len(),
            all_encodable(values@),
            result@.len() == i,
            forall|k: int| 0 <= k < i ==> json_model(#[trigger] result@[k]) == T::encoded(values@[k]@),
        decreases values.len() - i,
    {
        result.push(values[i].to_json());
        i += 1;
    }
    assert(json_models(result@) =~= views(values@).map_values(|value: T::V| T::encoded(value)));
    array(result)
}

/// The value of a boolean list field.
#[derive(Debug, Clone, PartialEq)]
pub enum BooleanListFieldValue {
    Value(Vec<BooleanFieldValue>),
    Nil,
}

/// The value of a cascader list field.
#[derive(Debug, Clone, PartialEq)]
pub enum CascaderListFieldValue {
    Value(Vec<CascaderFieldValue>),
    Nil,
}

/// The value of a date-time list field.
#[derive(Debug, Clone, PartialEq)]
pub enum DateTimeListFieldValue {
    Value(Vec<DateTimeFieldValue>),
    Nil,
}

/// The value of a file list field.
#[derive(Debug, Clone, PartialEq)]
pub enum FileListFieldValue {
    Value(Vec<FileFieldValue>),
    Nil,
}

/// The value of a multiple-line list field.
#[derive(Debug, Clone, PartialEq)]
pub enum MultipleLineListFieldValue {
    Value(Vec<MultipleLineFieldValue>),
    Nil,
}

/// The value of a numeric list field.
#[derive(Debug, Clone, PartialEq)]
pub enum NumericListFieldValue {
    Value(Vec<NumericFieldValue>),
    Nil,
}

/// The value of a relation list field.
#[derive(Debug, Clone, PartialEq)]
pub enum RelationListFieldValue {
    Value(Vec<RelationFieldValue>),
    Nil,
}

/// The value of a single-line text list field.
#[derive(Debug, Clone, PartialEq)]
pub enum SingleLineListFieldValue {
    Value(Vec<SingleLineFieldValue>),
    Nil,
}

/// The value of a table-row list field.
#[derive(Debug, Clone, PartialEq)]
pub enum TableRowListFieldValue {
    Value(Vec<TableRowFieldValue>),
    Nil,
}

impl View for BooleanListFieldValue {
    type V = Option<Seq<Option<bool>>>;

    open spec fn view(&self) -> Option<Seq<Option<bool>>> {
        match self {
            BooleanListFieldValue::Value(values) => Some(views(values@)),
            BooleanListFieldValue::Nil => None,
        }
    }
}

impl LiteralValue for BooleanListFieldValue {
    open spec fn nil(value: Option<Seq<Option<bool>>>) -> bool {
        value is None
    }

    open spec fn field_type() -> FieldType {
        FieldType::BooleanListField
    }

    open spec fn decoded(json: JsonModel) -> Option<Option<Seq<Option<bool>>>> {
        nullable_list_decoded::<BooleanFieldValue>(json)
    }

    open spec fn encoded(value: Option<Seq<Option<bool>>>) -> JsonModel {
        nullable_list_encoded::<BooleanFieldValue>(value)
    }

    open spec fn encodable(&self) -> bool {
        match self {
            BooleanListFieldValue::Value(values) => all_encodable(values@),
            BooleanListFieldValue::Nil => true,
        }
    }

    open spec fn canonical(&self) -> bool {
        match self {
            BooleanListFieldValue::Value(values) => all_canonical(values@),
            BooleanListFieldValue::Nil => true,
        }
    }

    fn is_nil(&self) -> (r: bool) {
        matches!(self, BooleanListFieldValue::Nil)
    }

    fn from_json(value: &serde_json::Value) -> (r: Result<Self, ParseLiteralValueError>) {
        if is_null(value) {
            return Ok(BooleanListFieldValue::Nil);
        }
        match list_from_json::<BooleanFieldValue>(value) {
            Ok(values) => Ok(BooleanListFieldValue::Value(values)),
            Err(_err) => Err(ParseLiteralValueError),
        }
    }

    fn to_json(&self) -> (r: serde_json::Value) {
        match self {
            BooleanListFieldValue::Value(values) => list_to_json(values),
            BooleanListFieldValue::Nil => null(),
        }
    }

    fn get_field_type(&self) -> (r: FieldType) {
        FieldType::BooleanListField
    }

    proof fn lemma_null_is_nil() {
    }

    proof fn lemma_round_trip(&self) {
        match self {
            BooleanListFieldValue::Value(values) => {
                lemma_list_round_trip::<BooleanFieldValue>(values@);
            },
            BooleanListFieldValue::Nil => {},
        }
    }
}

impl View for CascaderListFieldValue {
    type V = Option<Seq<Option<CascaderValueView>>>;

    open spec fn view(&self) -> Option<Seq<Option<CascaderValueView>>> {
        match self {
            CascaderListFieldValue::Value(values) => Some(views(values@)),
            CascaderListFieldValue::Nil => None,
        }
    }
}

impl LiteralValue for CascaderListFieldValue {
    open spec fn nil(value: Option<Seq<Option<CascaderValueView>>>) -> bool {
        value is None
    }

    open spec fn field_type() -> FieldType {
        FieldType::CascaderListField
    }

    open spec fn decoded(json: JsonModel) -> Option<Option<Seq<Option<CascaderValueView>>>> {
        nullable_list_decoded::<CascaderFieldValue>(json)
    }

    open spec fn encoded(value: Option<Seq<Option<CascaderValueView>>>) -> JsonModel {
        nullable_list_encoded::<CascaderFieldValue>(value)
    }

    open spec fn encodable(&self) -> bool {
        match self {
            CascaderListFieldValue::Value(values) => all_encodable(values@),
            CascaderListFieldValue::Nil => true,
        }
    }

    open spec fn canonical(&self) -> bool {
        match self {
            CascaderListFieldValue::Value(values) => all_canonical(values@),
            CascaderListFieldValue::Nil => true,
        }
    }

    fn is_nil(&self) -> (r: bool) {
        matches!(self, CascaderListFieldValue::Nil)
    }

    fn from_json(value: &serde_json::Value) -> (r: Result<Self, ParseLiteralValueError>) {
        if is_null(value) {
            return Ok(CascaderListFieldValue::Nil);
        }
        match list_from_json::<CascaderFieldValue>(value) {
            Ok(values) => Ok(CascaderListFieldValue::Value(values)),
            Err(_err) => Err(ParseLiteralValueError),
        }
    }

    fn to_json(&self) -> (r: serde_json::Value) {
        match self {
            CascaderListFieldValue::Value(values) => list_to_json(values),
            CascaderListFieldValue::Nil => null(),
        }
    }

    fn get_field_type(&self) -> (r: FieldType) {
        FieldType::CascaderListField
    }

    proof fn lemma_null_is_nil() {
    }

    proof fn lemma_round_trip(&self) {
        match self {
            CascaderListFieldValue::Value(values) => {
                lemma_list_round_trip::<CascaderFieldValue>(values@);
            },
            CascaderListFieldValue::Nil => {},
        }
    }
}

impl View for DateTimeListFieldValue {
    type V = Option<Seq<Option<NaiveDateTime>>>;

    open spec fn view(&self) -> Option<Seq<Option<NaiveDateTime>>> {
        match self {
            DateTimeListFieldValue::Value(values) => Some(views(values@)),
            DateTimeListFieldValue::Nil => None,
        }
    }
}

impl LiteralValue for DateTimeListFieldValue {
    open spec fn nil(value: Option<Seq<Option<NaiveDateTime>>>) -> bool {
        value is None
    }

    open spec fn field_type() -> FieldType {
        FieldType::DateTimeListField
    }

    open spec fn decoded(json: JsonModel) -> Option<Option<Seq<Option<NaiveDateTime>>>> {
        nullable_list_decoded::<DateTimeFieldValue>(json)
    }

    open spec fn encoded(value: Option<Seq<Option<NaiveDateTime>>>) -> JsonModel {
        nullable_list_encoded::<DateTimeFieldValue>(value)
    }

    open spec fn encodable(&self) -> bool {
        match self {
            DateTimeListFieldValue::Value(values) => all_encodable(values@),
            DateTimeListFieldValue::Nil => true,
        }
    }

    open spec fn canonical(&self) -> bool {
        match self {
            DateTimeListFieldValue::Value(values) => all_canonical(values@),
            DateTimeListFieldValue::Nil => true,
        }
    }

    fn is_nil(&self) -> (r: bool) {
        matches!(self, DateTimeListFieldValue::Nil)
    }

    fn from_json(value: &serde_json::Value) -> (r: Result<Self, ParseLiteralValueError>) {
        if is_null(value) {
            return Ok(DateTimeListFieldValue::Nil);
        }
        match list_from_json::<DateTimeFieldValue>(value) {
            Ok(values) => Ok(DateTimeListFieldValue::Value(values)),
            Err(_err) => Err(ParseLiteralValueError),
        }
    }

    fn to_json(&self) -> (r: serde_json::Value) {
        match self {
            DateTimeListFieldValue::Value(values) => list_to_json(values),
            DateTimeListFieldValue::Nil => null(),
        }
    }

    fn get_field_type(&self) -> (r: FieldType) {
        FieldType::DateTimeListField
    }

    proof fn lemma_null_is_nil() {
    }

    proof fn lemma_round_trip(&self) {
        match self {
            DateTimeListFieldValue::Value(values) => {
                lemma_list_round_trip::<DateTimeFieldValue>(values@);
            },
            DateTimeListFieldValue::Nil => {},
        }
    }
}

impl View for FileListFieldValue {
    type V = Option<Seq<Option<FileObjectView>>>;

    open spec fn view(&self) -> Option<Seq<Option<FileObjectView>>> {
        match self {
            FileListFieldValue::Value(values) => Some(views(values@)),
            FileListFieldValue::Nil => None,
        }
    }
}

impl LiteralValue for FileListFieldValue {
    open spec fn nil(value: Option<Seq<Option<FileObjectView>>>) -> bool {
        value is None
    }

    open spec fn field_type() -> FieldType {
        FieldType::FileListField
    }

    open spec fn decoded(json: JsonModel) -> Option<Option<Seq<Option<FileObjectView>>>> {
        nullable_list_decoded::<FileFieldValue>(json)
    }

    open spec fn encoded(value: Option<Seq<Option<FileObjectView>>>) -> JsonModel {
        nullable_list_encoded::<FileFieldValue>(value)
    }

    open spec fn encodable(&self) -> bool {
        match self {
            FileListFieldValue::Value(values) => all_encodable(values@),
            FileListFieldValue::Nil => true,
        }
    }

    open spec fn canonical(&self) -> bool {
        match self {
            FileListFieldValue::Value(values) => all_canonical(values@),
            FileListFieldValue::Nil => true,
        }
    }

    fn is_nil(&self) -> (r: bool) {
        matches!(self, FileListFieldValue::Nil)
    }

    fn from_json(value: &serde_json::Value) -> (r: Result<Self, ParseLiteralValueError>) {
        if is_null(value) {
            return Ok(FileListFieldValue::Nil);
        }
        match list_from_json::<FileFieldValue>(value) {
            Ok(values) => Ok(FileListFieldValue::Value(values)),
            Err(_err) => Err(ParseLiteralValueError),
        }
    }

    fn to_json(&self) -> (r: serde_json::Value) {
        match self {
            FileListFieldValue::Value(values) => list_to_json(values),
            FileListFieldValue::Nil => null(),
        }
    }

    fn get_field_type(&self) -> (r: FieldType) {
        FieldType::FileListField
    }

    proof fn lemma_null_is_nil() {
    }

    proof fn lemma_round_trip(&self) {
        match self {
            FileListFieldValue::Value(values) => {
                lemma_list_round_trip::<FileFieldValue>(values@);
            },
            FileListFieldValue::Nil => {},
        }
    }
}

impl View for MultipleLineListFieldValue {
    type V = Option<Seq<Option<JsonModel>>>;

    open spec fn view(&self) -> Option<Seq<Option<JsonModel>>> {
        match self {
            MultipleLineListFieldValue::Value(values) => Some(views(values@)),
            MultipleLineListFieldValue::Nil => None,
        }
    }
}

impl LiteralValue for MultipleLineListFieldValue {
    open spec fn nil(value: Option<Seq<Option<JsonModel>>>) -> bool {
        value is None
    }

    open spec fn field_type() -> FieldType {
        FieldType::MultipleLineListField
    }

    open spec fn decoded(json: JsonModel) -> Option<Option<Seq<Option<JsonModel>>>> {
        nullable_list_decoded::<MultipleLineFieldValue>(json)
    }

    open spec fn encoded(value: Option<Seq<Option<JsonModel>>>) -> JsonModel {
        nullable_list_encoded::<MultipleLineFieldValue>(value)
    }

    open spec fn encodable(&self) -> bool {
        match self {
            MultipleLineListFieldValue::Value(values) => all_encodable(values@),
            MultipleLineListFieldValue::Nil => true,
        }
    }

    open spec fn canonical(&self) -> bool {
        match self {
            MultipleLineListFieldValue::Value(values) => all_canonical(values@),
            MultipleLineListFieldValue::Nil => true,
        }
    }

    fn is_nil(&self) -> (r: bool) {
        matches!(self, MultipleLineListFieldValue::Nil)
    }

    fn from_json(value: &serde_json::Value) -> (r: Result<Self, ParseLiteralValueError>) {
        if is_null(value) {
            return Ok(MultipleLineListFieldValue::Nil);
        }
        match list_from_json::<MultipleLineFieldValue>(value) {
            Ok(values) => Ok(MultipleLineListFieldValue::Value(values)),
            Err(_err) => Err(ParseLiteralValueError),
        }
    }

    fn to_json(&self) -> (r: serde_json::Value) {
        match self {
            MultipleLineListFieldValue::Value(values) => list_to_json(values),
            MultipleLineListFieldValue::Nil => null(),
        }
    }

    fn get_field_type(&self) -> (r: FieldType) {
        FieldType::MultipleLineListField
    }

    proof fn lemma_null_is_nil() {
    }

    proof fn lemma_round_trip(&self) {
        match self {
            MultipleLineListFieldValue::Value(values) => {
                lemma_list_round_trip::<MultipleLineFieldValue>(values@);
            },
            MultipleLineListFieldValue::Nil => {},
        }
    }
}

impl View for NumericListFieldValue {
    type V = Option<Seq<Option<NumberView>>>;

    open spec fn view(&self) -> Option<Seq<Option<NumberView>>> {
        match self {
            NumericListFieldValue::Value(values) => Some(views(values@)),
            NumericListFieldValue::Nil => None,
        }
    }
}

impl LiteralValue for NumericListFieldValue {
    open spec fn nil(value: Option<Seq<Option<NumberView>>>) -> bool {
        value is None
    }

    open spec fn field_type() -> FieldType {
        FieldType::NumericListField
    }

    open spec fn decoded(json: JsonModel) -> Option<Option<Seq<Option<NumberView>>>> {
        nullable_list_decoded::<NumericFieldValue>(json)
    }

    open spec fn encoded(value: Option<Seq<Option<NumberView>>>) -> JsonModel {
        nullable_list_encoded::<NumericFieldValue>(value)
    }

    open spec fn encodable(&self) -> bool {
        match self {
            NumericListFieldValue::Value(values) => all_encodable(values@),
            NumericListFieldValue::Nil => true,
        }
    }

    open spec fn canonical(&self) -> bool {
        match self {
            NumericListFieldValue::Value(values) => all_canonical(values@),
            NumericListFieldValue::Nil => true,
        }
    }

    fn is_nil(&self) -> (r: bool) {
        matches!(self, NumericListFieldValue::Nil)
    }

    fn from_json(value: &serde_json::Value) -> (r: Result<Self, ParseLiteralValueError>) {
        if is_null(value) {
            return Ok(NumericListFieldValue::Nil);
        }
        match list_from_json::<NumericFieldValue>(value) {
            Ok(values) => Ok(NumericListFieldValue::Value(values)),
            Err(_err) => Err(ParseLiteralValueError),
        }
    }

    fn to_json(&self) -> (r: serde_json::Value) {
        match self {
            NumericListFieldValue::Value(values) => list_to_json(values),
            NumericListFieldValue::Nil => null(),
        }
    }

    fn get_field_type(&self) -> (r: FieldType) {
        FieldType::NumericListField
    }

    proof fn lemma_null_is_nil() {
    }

    proof fn lemma_round_trip(&self) {
        match self {
            NumericListFieldValue::Value(values) => {
                lemma_list_round_trip::<NumericFieldValue>(values@);
            },
            NumericListFieldValue::Nil => {},
        }
    }
}

impl View for RelationListFieldValue {
    type V = Option<Seq<Option<RelationValueView>>>;

    open spec fn view(&self) -> Option<Seq<Option<RelationValueView>>> {
        match self {
            RelationListFieldValue::Value(values) => Some(views(values@)),
            RelationListFieldValue::Nil => None,
        }
    }
}

impl LiteralValue for RelationListFieldValue {
    open spec fn nil(value: Option<Seq<Option<RelationValueView>>>) -> bool {
        value is None
    }

    open spec fn field_type() -> FieldType {
        FieldType::RelationListField
    }

    open spec fn decoded(json: JsonModel) -> Option<Option<Seq<Option<RelationValueView>>>> {
        nullable_list_decoded::<RelationFieldValue>(json)
    }

    open spec fn encoded(value: Option<Seq<Option<RelationValueView>>>) -> JsonModel {
        nullable_list_encoded::<RelationFieldValue>(value)
    }

    open spec fn encodable(&self) -> bool {
        match self {
            RelationListFieldValue::Value(values) => all_encodable(values@),
            RelationListFieldValue::Nil => true,
        }
    }

    open spec fn canonical(&self) -> bool {
        match self {
            RelationListFieldValue::Value(values) => all_canonical(values@),
            RelationListFieldValue::Nil => true,
        }
    }

    fn is_nil(&self) -> (r: bool) {
        matches!(self, RelationListFieldValue::Nil)
    }

    fn from_json(value: &serde_json::Value) -> (r: Result<Self, ParseLiteralValueError>) {
        if is_null(value) {
            return Ok(RelationListFieldValue::Nil);
        }
        match list_from_json::<RelationFieldValue>(value) {
            Ok(values) => Ok(RelationListFieldValue::Value(values)),
            Err(_err) => Err(ParseLiteralValueError),
        }
    }

    fn to_json(&self) -> (r: serde_json::Value) {
        match self {
            RelationListFieldValue::Value(values) => list_to_json(values),
            RelationListFieldValue::Nil => null(),
        }
    }

    fn get_field_type(&self) -> (r: FieldType) {
        FieldType::RelationListField
    }

    proof fn lemma_null_is_nil() {
    }

    proof fn lemma_round_trip(&self) {
        match self {
            RelationListFieldValue::Value(values) => {
                lemma_list_round_trip::<RelationFieldValue>(values@);
            },
            RelationListFieldValue::Nil => {},
        }
    }
}

impl View for SingleLineListFieldValue {
    type V = Option<Seq<Option<Seq<char>>>>;

    open spec fn view(&self) -> Option<Seq<Option<Seq<char>>>> {
        match self {
            SingleLineListFieldValue::Value(values) => Some(views(values@)),
            SingleLineListFieldValue::Nil => None,
        }
    }
}

impl LiteralValue for SingleLineListFieldValue {
    open spec fn nil(value: Option<Seq<Option<Seq<char>>>>) -> bool {
        value is None
    }

    open spec fn field_type() -> FieldType {
        FieldType::SingleLineListField
    }

    open spec fn decoded(json: JsonModel) -> Option<Option<Seq<Option<Seq<char>>>>> {
        nullable_list_decoded::<SingleLineFieldValue>(json)
    }

    open spec fn encoded(value: Option<Seq<Option<Seq<char>>>>) -> JsonModel {
        nullable_list_encoded::<SingleLineFieldValue>(value)
    }

    open spec fn encodable(&self) -> bool {
        match self {
            SingleLineListFieldValue::Value(values) => all_encodable(values@),
            SingleLineListFieldValue::Nil => true,
        }
    }

    open spec fn canonical(&self) -> bool {
        match self {
            SingleLineListFieldValue::Value(values) => all_canonical(values@),
            SingleLineListFieldValue::Nil => true,
        }
    }

    fn is_nil(&self) -> (r: bool) {
        matches!(self, SingleLineListFieldValue::Nil)
    }

    fn from_json(value: &serde_json::Value) -> (r: Result<Self, ParseLiteralValueError>) {
        if is_null(value) {
            return Ok(SingleLineListFieldValue::Nil);
        }
        match list_from_json::<SingleLineFieldValue>(value) {
            Ok(values) => Ok(SingleLineListFieldValue::Value(values)),
            Err(_err) => Err(ParseLiteralValueError),
        }
    }

    fn to_json(&self) -> (r: serde_json::Value) {
        match self {
            SingleLineListFieldValue::Value(values) => list_to_json(values),
            SingleLineListFieldValue::Nil => null(),
        }
    }

    fn get_field_type(&self) -> (r: FieldType) {
        FieldType::SingleLineListField
    }

    proof fn lemma_null_is_nil() {
    }

    proof fn lemma_round_trip(&self) {
        match self {
            SingleLineListFieldValue::Value(values) => {
                lemma_list_round_trip::<SingleLineFieldValue>(values@);
            },
            SingleLineListFieldValue::Nil => {},
        }
    }
}

impl View for TableRowListFieldValue {
    type V = Option<Seq<Option<Seq<char>>>>;

    open spec fn view(&self) -> Option<Seq<Option<Seq<char>>>> {
        match self {
            TableRowListFieldValue::Value(values) => Some(views(values@)),
            TableRowListFieldValue::Nil => None,
        }
    }
}

impl LiteralValue for TableRowListFieldValue {
    open spec fn nil(value: Option<Seq<Option<Seq<char>>>>) -> bool {
        value is None
    }

    open spec fn field_type() -> FieldType {
        FieldType::TableRowListField
    }

    open spec fn decoded(json: JsonModel) -> Option<Option<Seq<Option<Seq<char>>>>> {
        nullable_list_decoded::<TableRowFieldValue>(json)
    }

    open spec fn encoded(value: Option<Seq<Option<Seq<char>>>>) -> JsonModel {
        nullable_list_encoded::<TableRowFieldValue>(value)
    }

    open spec fn encodable(&self) -> bool {
        match self {
            TableRowListFieldValue::Value(values) => all_encodable(values@),
            TableRowListFieldValue::Nil => true,
        }
    }

    open spec fn canonical(&self) -> bool {
        match self {
            TableRowListFieldValue::Value(values) => all_canonical(values@),
            TableRowListFieldValue::Nil => true,
        }
    }

    fn is_nil(&self) -> (r: bool) {
        matches!(self, TableRowListFieldValue::Nil)
    }

    fn from_json(value: &serde_json::Value) -> (r: Result<Self, ParseLiteralValueError>) {
        if is_null(value) {
            return Ok(TableRowListFieldValue::Nil);
        }
        match list_from_json::<TableRowFieldValue>(value) {
            Ok(values) => Ok(TableRowListFieldValue::Value(values)),
            Err(_err) => Err(ParseLiteralValueError),
        }
    }

    fn to_json(&self) -> (r: serde_json::Value) {
        match self {
            TableRowListFieldValue::Value(values) => list_to_json(values),
            TableRowListFieldValue::Nil => null(),
        }
    }

    fn get_field_type(&self) -> (r: FieldType) {
        FieldType::TableRowListField
    }

    proof fn lemma_null_is_nil() {
    }

    proof fn lemma_round_trip(&self) {
        match self {
            TableRowListFieldValue::Value(values) => {
                lemma_list_round_trip::<TableRowFieldValue>(values@);
            },
            TableRowListFieldValue::Nil => {},
        }
    }
}

} // verus!
