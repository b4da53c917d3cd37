//! The output builder: the presenters that a program hands back.

use crate::inputs::{
    all_canonical, all_encodable, element_matched, is_first_rejected, matched_len, parsed,
};
use crate::json::{array, json_model, json_models, JsonModel};
use crate::value_presenter::error::DecodeErrorView;
use crate::value_presenter::field_type::FieldType;
use crate::value_presenter::literal_list_value::views;
use crate::value_presenter::{ValuePresenter, ValuePresenterView};
use vstd::prelude::*;

verus! {

/// An ordered list of presenters to hand back.
pub struct Outputs(pub Vec<ValuePresenter>);

/// The documents of a sequence of presenters, in order.
pub open spec fn presenters_encoded(presenters: Seq<ValuePresenterView>) -> Seq<JsonModel> {
    presenters.map_values(|presenter: ValuePresenterView| presenter.encoded())
}

/// The field types of a sequence of presenters, in order.
pub open spec fn field_types(presenters: Seq<ValuePresenterView>) -> Seq<FieldType> {
    presenters.map_values(|presenter: ValuePresenterView| presenter.field_type())
}

/// Round trip: the document that well-formed outputs are written as, matched
/// against the field types of the presenters, gives the presenters back.
pub proof fn lemma_outputs_read_back(presenters: Seq<ValuePresenter>)
    requires
        all_canonical(presenters),
    ensures
        parsed(
            JsonModel::Array(presenters_encoded(views(presenters))),
            field_types(views(presenters)),
        ) == Ok::<Seq<ValuePresenterView>, DecodeErrorView>(views(presenters)),
{
    let items = presenters_encoded(views(presenters));
    let types = field_types(views(presenters));
    assert forall|i: int| 0 <= i < presenters.len() implies (#[trigger] element_matched(
        items[i],
        types[i],
    )) == Ok::<ValuePresenterView, DecodeErrorView>(views(presenters)[i]) by {
        presenters[i].lemma_round_trip();
    }
    assert(!exists|i: int| is_first_rejected(items, types, i));
    assert(Seq::new(
        matched_len(items, types) as nat,
        |i: int| element_matched(items[i], types[i])->Ok_0,
    ) =~= views(presenters));
}

impl Outputs {
    /// The outputs that hold the given presenters, in the given order.
    pub fn build(value_presenters: Vec<ValuePresenter>) -> (r: Self)
        ensures
            r.0 == value_presenters,
    {
        Self(value_presenters)
    }

    /// Whether every presenter of the outputs can be written out.
    pub open spec fn encodable(&self) -> bool {
        all_encodable(self.0@)
    }

    /// Whether every presenter of the outputs can be written out.
    pub fn can_encode(&self) -> (r: bool)
        ensures
            r == self.encodable(),
    {
        let mut i: usize = 0;
        while i < self.0.len()
            invariant
                0 <= i <= self.0.len(),
                forall|k: int| 0 <= k < i ==> (#[trigger] self.0@[k]).encodable(),
            decreases self.0.len() - i,
        {
            if !self.0[i].can_encode() {
                return false;
            }
            i += 1;
        }
        true
    }

    /// Encodes the outputs as an array of presenter documents, in order.
    pub fn to_json(&self) -> (r: serde_json::Value)
        requires
            self.encodable(),
        ensures
            json_model(r) == JsonModel::Array(presenters_encoded(views(self.0@))),
    {
        let mut result: Vec<serde_json::Value> = Vec::new();
        let mut i: usize = 0;
        while i < self.0.len()
            invariant
                0 <= i <= self.0.len(),
                self.encodable(),
                result@.len() == i,
                forall|k: int|
                    0 <= k < i ==> json_model(#[trigger] result@[k]) == self.0@[k]@.encoded(),
            decreases self.0.len() - i,
        {
            result.push(self.0[i].to_json());
            i += 1;
        }
        assert(json_models(result@) =~= presenters_encoded(views(self.0@)));
        array(result)
    }
}

} // verus!
