//! The value of the option fields: chosen options and an optional free text.

use super::json_codec::JsonCodec;
use crate::json::{
    array, as_array, as_str, get, insert, is_null, is_object, json_model, json_models,
    new_members, no_members, null, object, string, JsonModel,
};
use vstd::prelude::*;

verus! {

/// The chosen options of a checkbox or radio-button field.
///
/// Both kinds share this type. That a radio button holds at most one choice is
/// checked where a radio-button value is decoded, not here.
#[derive(Debug, Clone, PartialEq, Eq)]
pub struct OptionsValue {
    pub options: Vec<String>,
    pub other: Option<String>,
}

/// The mathematical content of an [`OptionsValue`].
pub struct OptionsValueView {
    pub options: Seq<Seq<char>>,
    pub other: Option<Seq<char>>,
}

impl OptionsValueView {
    /// The number of choices: the options, and the free text if there is one.
    pub open spec fn count(self) -> nat {
        self.options.len() + if self.other is Some {
            1nat
        } else {
            0nat
        }
    }
}

/// The error of the options codec, by the part of the document that is wrong.
#[derive(Debug, PartialEq, Eq)]
pub enum ParseOptionsValueError {
    InvalidJson,
    InvalidOptions,
    InvalidOther,
}

/// The texts of a sequence of strings, in order.
pub open spec fn texts(strings: Seq<String>) -> Seq<Seq<char>> {
    strings.map_values(|s: String| s@)
}

/// The JSON strings with the given texts, in order.
pub open spec fn text_items(texts: Seq<Seq<char>>) -> Seq<JsonModel> {
    texts.map_values(|text: Seq<char>| JsonModel::String(text))
}

/// Whether every one of the documents is a JSON string.
pub open spec fn all_text(items: Seq<JsonModel>) -> bool {
    forall|i: int| 0 <= i < items.len() ==> (#[trigger] items[i]) is String
}

/// The texts of a sequence of JSON strings, in order.
pub open spec fn item_texts(items: Seq<JsonModel>) -> Seq<Seq<char>> {
    items.map_values(|item: JsonModel| item->String_0)
}

/// What the `options` member decodes to: an array of strings gives its texts,
/// `null` or no member gives no options, and anything else is rejected.
pub open spec fn options_decoded(member: Option<JsonModel>) -> Option<Seq<Seq<char>>> {
    match member {
        Some(JsonModel::Array(items)) => if all_text(items) {
            Some(item_texts(items))
        } else {
            None
        },
        Some(JsonModel::Null) => Some(Seq::empty()),
        Some(_) => None,
        None => Some(Seq::empty()),
    }
}

/// What the `other` member decodes to: a string gives its text, `null` or no
/// member gives no free text, and anything else is rejected.
pub open spec fn other_decoded(member: Option<JsonModel>) -> Option<Option<Seq<char>>> {
    match member {
        Some(JsonModel::String(text)) => Some(Some(text)),
        Some(JsonModel::Null) => Some(None),
        Some(_) => None,
        None => Some(None),
    }
}

/// The document that a free text is written as: a string, or `null`.
pub open spec fn other_encoded(other: Option<Seq<char>>) -> JsonModel {
    match other {
        Some(text) => JsonModel::String(text),
        None => JsonModel::Null,
    }
}

impl View for OptionsValue {
    type V = OptionsValueView;

    open spec fn view(&self) -> OptionsValueView {
        OptionsValueView {
            options: texts(self.options@),
            other: match self.other {
                Some(text) => Some(text@),
                None => None,
            },
        }
    }
}

impl JsonCodec for OptionsValue {
    type Err = ParseOptionsValueError;

    open spec fn decoded(json: JsonModel) -> Result<OptionsValueView, ParseOptionsValueError> {
        if !(json is Object) {
            Err(ParseOptionsValueError::InvalidJson)
        } else {
            match options_decoded(json.member("options"@)) {
                None => Err(ParseOptionsValueError::InvalidOptions),
                Some(options) => match other_decoded(json.member("other"@)) {
                    None => Err(ParseOptionsValueError::InvalidOther),
                    Some(other) => Ok(OptionsValueView { options, other }),
                },
            }
        }
    }

    open spec fn encoded(value: OptionsValueView) -> JsonModel {
        JsonModel::Object(
            no_members().insert("options"@, JsonModel::Array(text_items(value.options))).insert(
                "other"@,
                other_encoded(value.other),
            ),
        )
    }

    open spec fn encodable(&self) -> bool {
        true
    }

    open spec fn canonical(&self) -> bool {
        true
    }

    fn from_json(value: &serde_json::Value) -> (r: Result<Self, ParseOptionsValueError>) {
        if !is_object(value) {
            return Err(ParseOptionsValueError::InvalidJson);
        }
        let mut options_vec: Vec<String> = Vec::new();
        let mut other_option: Option<String> = None;

        match get(value, "options") {
            Some(options_json) => {
                match as_array(options_json) {
                    Some(options) => {
                        let ghost items = json_models(options@);
                        let mut i: usize = 0;
                        while i < options.len()
                            invariant
                                0 <= i <= options.len(),
                                items == json_models(options@),
                                json_model(*value) is Object,
                                json_model(*value).member("options"@) == Some(
                                    JsonModel::Array(items),
                                ),
                                options_vec@.len() == i,
                                forall|k: int|
                                    0 <= k < i ==> (#[trigger] items[k]) == JsonModel::String(
                                        options_vec@[k]@,
                                    ),
                            decreases options.len() - i,
                        {
                            match as_str(&options[i]) {
                                Some(option) => {
                                    options_vec.push(option.to_owned());
                                },
                                None => {
                                    assert(!(items[i as int] is String));
                                    return Err(ParseOptionsValueError::InvalidOptions);
                                },
                            }
                            i += 1;
                        }
                        assert(item_texts(items) =~= texts(options_vec@));
                    },
                    None => {
                        if !is_null(options_json) {
                            return Err(ParseOptionsValueError::InvalidOptions);
                        }
                        assert(texts(options_vec@) =~= Seq::empty());
                    },
                }
            },
            None => {
                assert(texts(options_vec@) =~= Seq::empty());
            },
        }

        match get(value, "other") {
            Some(other_json) => {
                match as_str(other_json) {
                    Some(other) => {
                        other_option = Some(other.to_owned());
                    },
                    None => {
                        if !is_null(other_json) {
                            return Err(ParseOptionsValueError::InvalidOther);
                        }
                    },
                }
            },
            None => (),
        }

        Ok(OptionsValue { options: options_vec, other: other_option })
    }

    fn to_json(&self) -> (r: serde_json::Value) {
        let mut options: Vec<serde_json::Value> = Vec::new();
        let mut i: usize = 0;
        while i < self.options.len()
            invariant
                0 <= i <= self.options.len(),
                options@.len() == i,
                forall|k: int|
                    0 <= k < i ==> json_model(#[trigger] options@[k]) == JsonModel::String(
                        self.options@[k]@,
                    ),
            decreases self.options.len() - i,
        {
            options.push(string(self.options[i].clone()));
            i += 1;
        }
        assert(json_models(options@) =~= text_items(texts(self.options@)));
        let other = match &self.other {
            Some(text) => string(text.clone()),
            None => null(),
        };
        let mut members = new_members();
        insert(&mut members, "options", array(options));
        insert(&mut members, "other", other);
        object(members)
    }

    proof fn lemma_encoded_is_not_null(&self) {
    }

    proof fn lemma_round_trip(&self) {
        reveal_strlit("options");
        reveal_strlit("other");
        assert("options"@.len() != "other"@.len());
        let items = text_items(self@.options);
        assert(all_text(items));
        assert(item_texts(items) =~= self@.options);
    }
}

impl OptionsValue {
    /// The number of choices made: the options, and the free text if there is
    /// one.
    pub fn count_options(&self) -> (r: usize)
        requires
            self.options@.len() < usize::MAX,
        ensures
            r == self@.count(),
    {
        let other: usize = if self.other.is_some() {
            1
        } else {
            0
        };
        self.options.len() + other
    }
}

} // verus!
