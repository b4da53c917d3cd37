//! The input matcher: decodes the presenters that a caller was sent and checks
//! them against the field types it expects.

use crate::json::{as_array, is_object, json_model, json_models, JsonModel};
use crate::value_presenter::error::{DecodeError, DecodeErrorView};
use crate::value_presenter::field_type::FieldType;
use crate::value_presenter::literal_list_value::views;
use crate::value_presenter::{ValuePresenter, ValuePresenterView};
use vstd::prelude::*;

verus! {

/// What one provided document gives when a presenter of field type `expected`
/// is wanted: the decoded presenter where it is of that type, and otherwise the
/// error. A presenter of another type is handed back inside the error.
pub open spec fn element_matched(item: JsonModel, expected: FieldType) -> Result<
    ValuePresenterView,
    DecodeErrorView,
> {
    if !(item is Object) {
        Err(DecodeErrorView::InvalidJsonObject(item))
    } else {
        match ValuePresenterView::decoded(item) {
            Ok(presenter) => if presenter.field_type() == expected {
                Ok(presenter)
            } else {
                Err(
                    DecodeErrorView::MismatchedFieldType {
                        field_type: expected,
                        value_presenter: presenter,
                    },
                )
            },
            Err(error) => Err(error),
        }
    }
}

/// The number of positions that are matched: the shorter of the two lengths.
/// Documents or field types beyond it are left out; a difference in length is
/// no error.
pub open spec fn matched_len(items: Seq<JsonModel>, types: Seq<FieldType>) -> int {
    if items.len() <= types.len() {
        items.len() as int
    } else {
        types.len() as int
    }
}

/// Whether `index` is the first matched position whose document is rejected.
pub open spec fn is_first_rejected(items: Seq<JsonModel>, types: Seq<FieldType>, index: int) -> bool {
    &&& 0 <= index < matched_len(items, types)
    &&& element_matched(items[index], types[index]) is Err
    &&& forall|j: int| 0 <= j < index ==> (#[trigger] element_matched(items[j], types[j])) is Ok
}

/// What matching provided documents against expected field types gives: the
/// presenters of all matched positions in order, or the error of the first
/// position that is rejected. There are no partial results.
pub open spec fn values_matched(items: Seq<JsonModel>, types: Seq<FieldType>) -> Result<
    Seq<ValuePresenterView>,
    DecodeErrorView,
> {
    if exists|i: int| is_first_rejected(items, types, i) {
        let i = choose|i: int| is_first_rejected(items, types, i);
        Err(element_matched(items[i], types[i])->Err_0)
    } else {
        Ok(
            Seq::new(
                matched_len(items, types) as nat,
                |i: int| element_matched(items[i], types[i])->Ok_0,
            ),
        )
    }
}

/// What a document of inputs gives against expected field types. The document
/// must be an array.
pub open spec fn parsed(args: JsonModel, types: Seq<FieldType>) -> Result<
    Seq<ValuePresenterView>,
    DecodeErrorView,
> {
    match args {
        JsonModel::Array(items) => values_matched(items, types),
        _ => Err(DecodeErrorView::InvalidJsonObject(args)),
    }
}

/// Truncation: matching succeeds exactly when no matched position is
/// rejected, and then gives one presenter for each matched position: as many
/// as the shorter of the two sequences has, each of the field type expected at
/// its position.
pub proof fn lemma_values_matched_len(items: Seq<JsonModel>, types: Seq<FieldType>)
    ensures
        values_matched(items, types) is Ok <==> forall|i: int|
            0 <= i < matched_len(items, types) ==> (#[trigger] element_matched(
                items[i],
                types[i],
            )) is Ok,
        values_matched(items, types) matches Ok(presenters) ==> presenters.len() == matched_len(
            items,
            types,
        ) && forall|i: int|
            0 <= i < presenters.len() ==> (#[trigger] presenters[i]).field_type() == types[i],
{
    if exists|i: int| is_first_rejected(items, types, i) {
    } else {
        if exists|i: int|
            0 <= i < matched_len(items, types) && element_matched(items[i], types[i]) is Err {
            let i = choose|i: int|
                0 <= i < matched_len(items, types) && element_matched(items[i], types[i]) is Err;
            lemma_first_rejected_exists(items, types, i);
        }
    }
}

/// Where some matched position up to `bound` is rejected, there is a first
/// such position.
proof fn lemma_first_rejected_exists(items: Seq<JsonModel>, types: Seq<FieldType>, bound: int)
    requires
        0 <= bound < matched_len(items, types),
        element_matched(items[bound], types[bound]) is Err,
    ensures
        exists|i: int| is_first_rejected(items, types, i),
    decreases bound,
{
    if forall|j: int| 0 <= j < bound ==> (#[trigger] element_matched(items[j], types[j])) is Ok {
        assert(is_first_rejected(items, types, bound));
    } else {
        let j = choose|j: int| 0 <= j < bound && !(#[trigger] element_matched(
            items[j],
            types[j],
        ) is Ok);
        lemma_first_rejected_exists(items, types, j);
    }
}

/// Whether every presenter of a sequence is well formed.
pub open spec fn all_canonical(presenters: Seq<ValuePresenter>) -> bool {
    forall|i: int| 0 <= i < presenters.len() ==> (#[trigger] presenters[i]).canonical()
}

/// Whether every presenter of a sequence can be written out.
pub open spec fn all_encodable(presenters: Seq<ValuePresenter>) -> bool {
    forall|i: int| 0 <= i < presenters.len() ==> (#[trigger] presenters[i]).encodable()
}

/// Decodes the provided presenters and checks each against the field type
/// expected at its position.
///
/// Positions are paired up to the shorter of the two lengths. The first
/// document that is rejected ends the call with its error.
pub fn parse(args: &serde_json::Value, types: Vec<FieldType>) -> (r: Result<
    Vec<ValuePresenter>,
    DecodeError,
>)
    ensures
        match r {
            Ok(presenters) => parsed(json_model(*args), types@) == Ok::<
                Seq<ValuePresenterView>,
                DecodeErrorView,
            >(views(presenters@)) && all_encodable(presenters@) && all_canonical(presenters@),
            Err(error) => parsed(json_model(*args), types@) == Err::<
                Seq<ValuePresenterView>,
                DecodeErrorView,
            >(error@),
        },
{
    match as_array(args) {
        Some(list) => {
            let ghost items = json_models(list@);
            let count = if list.len() <= types.len() {
                list.len()
            } else {
                types.len()
            };
            let mut result: Vec<ValuePresenter> = Vec::new();
            let mut i: usize = 0;
            while i < count
                invariant
                    0 <= i <= count,
                    count == matched_len(items, types@),
                    count <= list.len(),
                    count <= types.len(),
                    items == json_models(list@),
                    json_model(*args) == JsonModel::Array(items),
                    result@.len() == i,
                    all_encodable(result@),
                    all_canonical(result@),
                    forall|k: int|
                        0 <= k < i ==> (#[trigger] element_matched(items[k], types@[k])) == Ok::<
                            ValuePresenterView,
                            DecodeErrorView,
                        >(result@[k]@),
                decreases count - i,
            {
                let value = &list[i];
                let field_type = types[i];
                if is_object(value) {
                    match ValuePresenter::from_json(value) {
                        Ok(vp) => {
                            if vp.get_field_type() == field_type {
                                result.push(vp);
                            } else {
                                assert(is_first_rejected(items, types@, i as int));
                                return Err(
                                    DecodeError::MismatchedFieldType {
                                        value_presenter: vp,
                                        field_type,
                                    },
                                );
                            }
                        },
                        Err(error) => {
                            assert(is_first_rejected(items, types@, i as int));
                            return Err(error);
                        },
                    }
                } else {
                    assert(is_first_rejected(items, types@, i as int));
                    return Err(DecodeError::InvalidJsonObject(value));
                }
                i += 1;
            }
            assert(views(result@) =~= Seq::new(
                matched_len(items, types@) as nat,
                |i: int| element_matched(items[i], types@[i])->Ok_0,
            ));
            Ok(result)
        },
        None => Err(DecodeError::InvalidJsonObject(args)),
    }
}

} // verus!
