//! The JSON documents the codec reads and writes.
//!
//! Documents are `serde_json::Value`s. The verifier cannot look inside one, so
//! this module gives each document a mathematical model, [`JsonModel`], and a
//! small set of accessors and constructors whose contracts are stated over that
//! model. Those contracts are trusted: they restate what `serde_json` documents
//! and are not proved here. Everything else in the crate is proved from them.

use vstd::prelude::*;

verus! {

/// The content of a JSON number, as `serde_json` keeps it: a non-negative
/// integer, a negative integer, or a finite binary64 value.
pub enum NumberModel {
    /// An integer from `0` to `u64::MAX`.
    PosInt(u64),
    /// An integer below zero.
    NegInt(i64),
    /// A finite floating-point value, identified by its IEEE-754 bit pattern.
    Float(u64),
}

/// The content of a JSON document.
pub enum JsonModel {
    /// The document `null`.
    Null,
    /// A boolean.
    Bool(bool),
    /// A number.
    Number(NumberModel),
    /// A string, as its characters.
    String(Seq<char>),
    /// An array, as its elements in order.
    Array(Seq<JsonModel>),
    /// An object, as its members by key. A key occurs once.
    Object(Map<Seq<char>, JsonModel>),
}

impl JsonModel {
    /// The member stored under `key`, if this document is an object that has one.
    pub open spec fn member(self, key: Seq<char>) -> Option<JsonModel> {
        match self {
            JsonModel::Object(members) => if members.contains_key(key) {
                Some(members[key])
            } else {
                None
            },
            _ => None,
        }
    }

    /// The member stored under `key`, with an absent member read as `null`.
    pub open spec fn member_or_null(self, key: Seq<char>) -> JsonModel {
        match self.member(key) {
            Some(value) => value,
            None => JsonModel::Null,
        }
    }
}

/// The number that an `i64` becomes when it is written into a document.
pub open spec fn integer_model(i: i64) -> NumberModel {
    if i < 0 {
        NumberModel::NegInt(i)
    } else {
        NumberModel::PosInt(i as u64)
    }
}

/// The members of an object that has none.
pub open spec fn no_members() -> Map<Seq<char>, JsonModel> {
    Map::empty()
}

/// The models of a sequence of documents, in order.
pub open spec fn json_models(items: Seq<serde_json::Value>) -> Seq<JsonModel> {
    items.map_values(|item: serde_json::Value| json_model(item))
}

#[verifier::external_type_specification]
#[verifier::external_body]
pub struct ExValue(serde_json::Value);

#[verifier::external_type_specification]
#[verifier::external_body]
#[verifier::reject_recursive_types(K)]
#[verifier::reject_recursive_types(V)]
pub struct ExMap<K, V>(serde_json::Map<K, V>);

/// What a `serde_json::Value` holds.
pub uninterp spec fn json_model(value: serde_json::Value) -> JsonModel;

/// The members that a `serde_json::Map` holds, by key.
pub uninterp spec fn object_model(members: serde_json::Map<String, serde_json::Value>) -> Map<
    Seq<char>,
    JsonModel,
>;

/// `Value::is_null`. Trusted: true exactly when the document is `null`.
#[verifier::external_body]
pub(crate) fn is_null(value: &serde_json::Value) -> (r: bool)
    ensures
        r == (json_model(*value) is Null),
{
    value.is_null()
}

/// `Value::is_object`. Trusted: true exactly when the document is an object.
#[verifier::external_body]
pub(crate) fn is_object(value: &serde_json::Value) -> (r: bool)
    ensures
        r == (json_model(*value) is Object),
{
    value.is_object()
}

/// `Value::as_bool`. Trusted: the boolean of a JSON boolean, and nothing for
/// any other document.
#[verifier::external_body]
pub(crate) fn as_bool(value: &serde_json::Value) -> (r: Option<bool>)
    ensures
        r == (match json_model(*value) {
            JsonModel::Bool(b) => Some(b),
            _ => None,
        }),
{
    value.as_bool()
}

/// `Value::as_str`. Trusted: the text of a JSON string, and nothing for any
/// other document.
#[verifier::external_body]
pub(crate) fn as_str<'a>(value: &'a serde_json::Value) -> (r: Option<&'a str>)
    ensures
        match json_model(*value) {
            JsonModel::String(text) => r matches Some(s) && s@ == text,
            _ => r is None,
        },
{
    value.as_str()
}

/// `Value::as_u64`. Trusted: the value of a non-negative integer, and nothing
/// for a negative integer, a floating-point number or any other document.
#[verifier::external_body]
pub(crate) fn as_u64(value: &serde_json::Value) -> (r: Option<u64>)
    ensures
        r == (match json_model(*value) {
            JsonModel::Number(NumberModel::PosInt(n)) => Some(n),
            _ => None,
        }),
{
    value.as_u64()
}

/// `Value::as_i64`. Trusted: the value of an integer that fits in an `i64`, and
/// nothing for a larger integer, a floating-point number or any other document.
#[verifier::external_body]
pub(crate) fn as_i64(value: &serde_json::Value) -> (r: Option<i64>)
    ensures
        r == (match json_model(*value) {
            JsonModel::Number(NumberModel::PosInt(n)) => if n <= i64::MAX as u64 {
                Some(n as i64)
            } else {
                None
            },
            JsonModel::Number(NumberModel::NegInt(n)) => Some(n),
            _ => None,
        }),
{
    value.as_i64()
}

/// `Value::as_f64`, with the floating-point value handed on as the document
/// made from it by `Value::from`. Trusted: a floating-point number comes back
/// as a document with the same content; an integer comes back as some number
/// (its nearest floating-point value); any other document gives nothing.
#[verifier::external_body]
pub(crate) fn as_float(value: &serde_json::Value) -> (r: Option<serde_json::Value>)
    ensures
        match json_model(*value) {
            JsonModel::Number(NumberModel::Float(bits)) => r matches Some(n) && json_model(n)
                == json_model(*value),
            JsonModel::Number(_) => r matches Some(n) && json_model(n) is Number,
            _ => r is None,
        },
{
    value.as_f64().map(serde_json::Value::from)
}

/// `Value::as_array`. Trusted: the elements of a JSON array, in order, and
/// nothing for any other document.
#[verifier::external_body]
pub(crate) fn as_array(value: &serde_json::Value) -> (r: Option<&Vec<serde_json::Value>>)
    ensures
        match json_model(*value) {
            JsonModel::Array(items) => r matches Some(elements) && json_models(elements@) == items,
            _ => r is None,
        },
{
    value.as_array()
}

/// `Value::get` with a string key. Trusted: the member stored under the key
/// when the document is an object that has one, and nothing otherwise.
#[verifier::external_body]
pub(crate) fn get<'a>(value: &'a serde_json::Value, key: &str) -> (r: Option<
    &'a serde_json::Value,
>)
    ensures
        match json_model(*value).member(key@) {
            Some(member) => r matches Some(found) && json_model(*found) == member,
            None => r is None,
        },
{
    value.get(key)
}

/// `Value::clone`. Trusted: the copy holds the same document.
pub assume_specification[ <serde_json::Value as Clone>::clone ](
    value: &serde_json::Value,
) -> (r: serde_json::Value)
    ensures
        json_model(r) == json_model(*value),
;

/// `Value::Null`. Trusted: the document `null`.
#[verifier::external_body]
pub(crate) fn null() -> (r: serde_json::Value)
    ensures
        json_model(r) == JsonModel::Null,
{
    serde_json::Value::Null
}

/// `Value::Bool`. Trusted: the JSON boolean with the given value.
#[verifier::external_body]
pub(crate) fn boolean(b: bool) -> (r: serde_json::Value)
    ensures
        json_model(r) == JsonModel::Bool(b),
{
    serde_json::Value::Bool(b)
}

/// `Value::String`. Trusted: the JSON string with the given text.
#[verifier::external_body]
pub(crate) fn string(text: String) -> (r: serde_json::Value)
    ensures
        json_model(r) == JsonModel::String(text@),
{
    serde_json::Value::String(text)
}

/// `Value::Number` of `Number::from` an `i64`. Trusted: a negative value is
/// kept as a negative integer, any other as a non-negative integer.
#[verifier::external_body]
pub(crate) fn integer(i: i64) -> (r: serde_json::Value)
    ensures
        json_model(r) == JsonModel::Number(integer_model(i)),
{
    serde_json::Value::Number(serde_json::Number::from(i))
}

/// `Value::Number` of `Number::from` a `u64`. Trusted: the value is kept as a
/// non-negative integer.
#[verifier::external_body]
pub(crate) fn unsigned(n: u64) -> (r: serde_json::Value)
    ensures
        json_model(r) == JsonModel::Number(NumberModel::PosInt(n)),
{
    serde_json::Value::Number(serde_json::Number::from(n))
}

/// `Value::Array`. Trusted: the JSON array of the given documents, in order.
#[verifier::external_body]
pub(crate) fn array(items: Vec<serde_json::Value>) -> (r: serde_json::Value)
    ensures
        json_model(r) == JsonModel::Array(json_models(items@)),
{
    serde_json::Value::Array(items)
}

/// `Map::new`. Trusted: a map without members.
#[verifier::external_body]
pub(crate) fn new_members() -> (r: serde_json::Map<String, serde_json::Value>)
    ensures
        object_model(r) == no_members(),
{
    serde_json::Map::new()
}

/// `Map::insert`. Trusted: afterwards the key holds the given document, in
/// place of an earlier one if there was one, and every other member is as it
/// was.
#[verifier::external_body]
pub(crate) fn insert(
    members: &mut serde_json::Map<String, serde_json::Value>,
    key: &str,
    value: serde_json::Value,
)
    ensures
        object_model(*final(members)) == object_model(*old(members)).insert(key@, json_model(value)),
{
    members.insert(key.to_owned(), value);
}

/// `Value::Object`. Trusted: the JSON object with the given members.
#[verifier::external_body]
pub(crate) fn object(members: serde_json::Map<String, serde_json::Value>) -> (r: serde_json::Value)
    ensures
        json_model(r) == JsonModel::Object(object_model(members)),
{
    serde_json::Value::Object(members)
}

} // verus!
