//! How the plain values of a record are read from a document: truth values,
//! integers of each width, text, numbers and lists.

use crate::json::{items_view, lemma_items_view, Json, JsonView, Number, NumberView};
use crate::schema::{DecodeError, DecodeErrorView, Fault, Schema, Step, StepView};
use vstd::prelude::*;

verus! {

impl Schema for bool {
    open spec fn valid(value: bool) -> bool {
        true
    }

    open spec fn decoded(doc: JsonView) -> Result<bool, DecodeErrorView> {
        match doc {
            JsonView::Bool(b) => Ok(b),
            _ => Err(DecodeErrorView::here(Fault::Mismatch)),
        }
    }

    open spec fn encoded(value: bool) -> JsonView {
        JsonView::Bool(value)
    }

    fn decode(doc: &Json) -> (result: Result<bool, DecodeError>) {
        match doc {
            Json::Bool(b) => Ok(*b),
            _ => Err(DecodeError::here(Fault::Mismatch)),
        }
    }

    fn encode(&self) -> (doc: Json) {
        Json::Bool(*self)
    }

    proof fn decoded_is_valid(doc: JsonView) {
    }

    proof fn encoded_decodes(value: bool) {
    }
}

/// What a document yields as an integer between `low` and `high`: only an
/// integer number is one, and it has to lie in the range.
pub open spec fn decoded_integer(doc: JsonView, low: int, high: int) -> Result<
    int,
    DecodeErrorView,
> {
    match doc {
        JsonView::Number(NumberView::Integer(i)) => if low <= i <= high {
            Ok(i)
        } else {
            Err(DecodeErrorView::here(Fault::OutOfRange))
        },
        _ => Err(DecodeErrorView::here(Fault::Mismatch)),
    }
}

/// Reads an integer between `low` and `high`.
pub fn decode_integer(doc: &Json, low: i128, high: i128) -> (result: Result<i128, DecodeError>)
    ensures
        match result {
            Ok(i) => decoded_integer(doc@, low as int, high as int) == Ok::<int, DecodeErrorView>(
                i as int,
            ),
            Err(error) => decoded_integer(doc@, low as int, high as int) == Err::<
                int,
                DecodeErrorView,
            >(error.deep_view()),
        },
{
    match doc {
        Json::Number(Number::Integer(i)) => if low <= *i && *i <= high {
            Ok(*i)
        } else {
            Err(DecodeError::here(Fault::OutOfRange))
        },
        _ => Err(DecodeError::here(Fault::Mismatch)),
    }
}

impl Schema for u16 {
    open spec fn valid(value: u16) -> bool {
        true
    }

    open spec fn decoded(doc: JsonView) -> Result<u16, DecodeErrorView> {
        match decoded_integer(doc, 0, u16::MAX as int) {
            Ok(i) => Ok(i as u16),
            Err(error) => Err(error),
        }
    }

    open spec fn encoded(value: u16) -> JsonView {
        JsonView::Number(NumberView::Integer(value as int))
    }

    fn decode(doc: &Json) -> (result: Result<u16, DecodeError>) {
        match decode_integer(doc, 0, u16::MAX as i128) {
            Ok(i) => Ok(i as u16),
            Err(error) => Err(error),
        }
    }

    fn encode(&self) -> (doc: Json) {
        Json::Number(Number::Integer(*self as i128))
    }

    proof fn decoded_is_valid(doc: JsonView) {
    }

    proof fn encoded_decodes(value: u16) {
    }
}

impl Schema for u32 {
    open spec fn valid(value: u32) -> bool {
        true
    }

    open spec fn decoded(doc: JsonView) -> Result<u32, DecodeErrorView> {
        match decoded_integer(doc, 0, u32::MAX as int) {
            Ok(i) => Ok(i as u32),
            Err(error) => Err(error),
        }
    }

    open spec fn encoded(value: u32) -> JsonView {
        JsonView::Number(NumberView::Integer(value as int))
    }

    fn decode(doc: &Json) -> (result: Result<u32, DecodeError>) {
        match decode_integer(doc, 0, u32::MAX as i128) {
            Ok(i) => Ok(i as u32),
            Err(error) => Err(error),
        }
    }

    fn encode(&self) -> (doc: Json) {
        Json::Number(Number::Integer(*self as i128))
    }

    proof fn decoded_is_valid(doc: JsonView) {
    }

    proof fn encoded_decodes(value: u32) {
    }
}

impl Schema for u64 {
    open spec fn valid(value: u64) -> bool {
        true
    }

    open spec fn decoded(doc: JsonView) -> Result<u64, DecodeErrorView> {
        match decoded_integer(doc, 0, u64::MAX as int) {
            Ok(i) => Ok(i as u64),
            Err(error) => Err(error),
        }
    }

    open spec fn encoded(value: u64) -> JsonView {
        JsonView::Number(NumberView::Integer(value as int))
    }

    fn decode(doc: &Json) -> (result: Result<u64, DecodeError>) {
        match decode_integer(doc, 0, u64::MAX as i128) {
            Ok(i) => Ok(i as u64),
            Err(error) => Err(error),
        }
    }

    fn encode(&self) -> (doc: Json) {
        Json::Number(Number::Integer(*self as i128))
    }

    proof fn decoded_is_valid(doc: JsonView) {
    }

    proof fn encoded_decodes(value: u64) {
    }
}

impl Schema for i8 {
    open spec fn valid(value: i8) -> bool {
        true
    }

    open spec fn decoded(doc: JsonView) -> Result<i8, DecodeErrorView> {
        match decoded_integer(doc, i8::MIN as int, i8::MAX as int) {
            Ok(i) => Ok(i as i8),
            Err(error) => Err(error),
        }
    }

    open spec fn encoded(value: i8) -> JsonView {
        JsonView::Number(NumberView::Integer(value as int))
    }

    fn decode(doc: &Json) -> (result: Result<i8, DecodeError>) {
        match decode_integer(doc, i8::MIN as i128, i8::MAX as i128) {
            Ok(i) => Ok(i as i8),
            Err(error) => Err(error),
        }
    }

    fn encode(&self) -> (doc: Json) {
        Json::Number(Number::Integer(*self as i128))
    }

    proof fn decoded_is_valid(doc: JsonView) {
    }

    proof fn encoded_decodes(value: i8) {
    }
}

impl Schema for String {
    open spec fn valid(value: Seq<char>) -> bool {
        true
    }

    open spec fn decoded(doc: JsonView) -> Result<Seq<char>, DecodeErrorView> {
        match doc {
            JsonView::Text(text) => Ok(text),
            _ => Err(DecodeErrorView::here(Fault::Mismatch)),
        }
    }

    open spec fn encoded(value: Seq<char>) -> JsonView {
        JsonView::Text(value)
    }

    fn decode(doc: &Json) -> (result: Result<String, DecodeError>) {
        match doc {
            Json::Text(text) => Ok(text.clone()),
            _ => Err(DecodeError::here(Fault::Mismatch)),
        }
    }

    fn encode(&self) -> (doc: Json) {
        Json::Text(self.clone())
    }

    proof fn decoded_is_valid(doc: JsonView) {
    }

    proof fn encoded_decodes(value: Seq<char>) {
    }
}

impl Schema for Number {
    open spec fn valid(value: NumberView) -> bool {
        true
    }

    open spec fn decoded(doc: JsonView) -> Result<NumberView, DecodeErrorView> {
        match doc {
            JsonView::Number(number) => Ok(number),
            _ => Err(DecodeErrorView::here(Fault::Mismatch)),
        }
    }

    open spec fn encoded(value: NumberView) -> JsonView {
        JsonView::Number(value)
    }

    fn decode(doc: &Json) -> (result: Result<Number, DecodeError>) {
        match doc {
            Json::Number(number) => Ok(*number),
            _ => Err(DecodeError::here(Fault::Mismatch)),
        }
    }

    fn encode(&self) -> (doc: Json) {
        Json::Number(*self)
    }

    proof fn decoded_is_valid(doc: JsonView) {
    }

    proof fn encoded_decodes(value: NumberView) {
    }
}

/// What the items of an array yield, one value each: the first item that
/// does not decode makes the error, under its index.
pub open spec fn decoded_items<T: Schema>(items: Seq<JsonView>) -> Result<
    Seq<T::V>,
    DecodeErrorView,
>
    decreases items.len(),
{
    if items.len() == 0 {
        Ok(Seq::empty())
    } else {
        match decoded_items::<T>(items.drop_last()) {
            Err(error) => Err(error),
            Ok(values) => match T::decoded(items.last()) {
                Ok(value) => Ok(values.push(value)),
                Err(error) => Err(error.under(StepView::Item(items.len() - 1))),
            },
        }
    }
}

/// The documents that stand for `values`, one each.
pub open spec fn encoded_items<T: Schema>(values: Seq<T::V>) -> Seq<JsonView> {
    Seq::new(values.len(), |i: int| T::encoded(values[i]))
}

/// Where every item decodes, the list has one value for each item, in order.
pub proof fn lemma_decoded_items<T: Schema>(items: Seq<JsonView>)
    ensures
        decoded_items::<T>(items) matches Ok(values) ==> {
            &&& values.len() == items.len()
            &&& forall|i: int|
                0 <= i < items.len() ==> T::decoded(#[trigger] items[i]) == Ok::<
                    T::V,
                    DecodeErrorView,
                >(values[i])
        },
    decreases items.len(),
{
    if items.len() > 0 {
        let front = items.drop_last();
        lemma_decoded_items::<T>(front);
        if let Ok(values) = decoded_items::<T>(items) {
            assert forall|i: int| 0 <= i < items.len() implies T::decoded(#[trigger] items[i])
                == Ok::<T::V, DecodeErrorView>(values[i]) by {
                if i < front.len() {
                    assert(front[i] == items[i]);
                }
            }
        }
    }
}

/// Where an item does not decode, the first such item makes the error.
pub proof fn lemma_decoded_items_fault<T: Schema>(items: Seq<JsonView>, at: int)
    requires
        0 <= at < items.len(),
        T::decoded(items[at]) is Err,
        forall|j: int| 0 <= j < at ==> (#[trigger] T::decoded(items[j])) is Ok,
    ensures
        decoded_items::<T>(items) == Err::<Seq<T::V>, DecodeErrorView>(
            T::decoded(items[at])->Err_0.under(StepView::Item(at)),
        ),
    decreases items.len(),
{
    if at < items.len() - 1 {
        lemma_decoded_items_fault::<T>(items.drop_last(), at);
    } else {
        lemma_decoded_prefix::<T>(items.drop_last());
    }
}

/// Items that all decode yield a list.
pub proof fn lemma_decoded_prefix<T: Schema>(items: Seq<JsonView>)
    requires
        forall|j: int| 0 <= j < items.len() ==> (#[trigger] T::decoded(items[j])) is Ok,
    ensures
        decoded_items::<T>(items) is Ok,
    decreases items.len(),
{
    if items.len() > 0 {
        lemma_decoded_prefix::<T>(items.drop_last());
    }
}

impl<T: Schema> Schema for Vec<T> {
    open spec fn valid(value: Seq<T::V>) -> bool {
        forall|i: int| 0 <= i < value.len() ==> T::valid(#[trigger] value[i])
    }

    open spec fn decoded(doc: JsonView) -> Result<Seq<T::V>, DecodeErrorView> {
        match doc {
            JsonView::Array(items) => decoded_items::<T>(items),
            _ => Err(DecodeErrorView::here(Fault::Mismatch)),
        }
    }

    open spec fn encoded(value: Seq<T::V>) -> JsonView {
        JsonView::Array(encoded_items::<T>(value))
    }

    fn decode(doc: &Json) -> (result: Result<Vec<T>, DecodeError>) {
        match doc {
            Json::Array(items) => {
                let mut values: Vec<T> = Vec::new();
                let mut i: usize = 0;
                proof {
                    lemma_items_view(items@);
                }
                assert(values.deep_view() =~= Seq::empty());
                while i < items.len()
                    invariant
                        i <= items.len(),
                        doc@ == JsonView::Array(items_view(items@)),
                        items_view(items@).len() == items.len(),
                        forall|j: int|
                            0 <= j < items.len() ==> #[trigger] items_view(items@)[j] == items@[j]@,
                        decoded_items::<T>(items_view(items@).take(i as int)) == Ok::<
                            Seq<T::V>,
                            DecodeErrorView,
                        >(values.deep_view()),
                    decreases items.len() - i,
                {
                    let ghost before = items_view(items@).take(i as int);
                    let ghost upto = items_view(items@).take(i + 1);
                    assert(upto.drop_last() =~= before);
                    match T::decode(&items[i]) {
                        Ok(value) => {
                            let ghost old_values = values.deep_view();
                            values.push(value);
                            assert(values.deep_view() =~= old_values.push(value.deep_view()));
                        },
                        Err(error) => {
                            proof {
                                lemma_decoded_items::<T>(before);
                                assert forall|j: int| 0 <= j < i implies (#[trigger] T::decoded(
                                    items_view(items@)[j],
                                )) is Ok by {
                                    assert(before[j] == items_view(items@)[j]);
                                }
                                lemma_decoded_items_fault::<T>(items_view(items@), i as int);
                            }
                            return Err(error.under(Step::Item(i)));
                        },
                    }
                    i = i + 1;
                }
                assert(items_view(items@).take(i as int) =~= items_view(items@));
                Ok(values)
            },
            _ => Err(DecodeError::here(Fault::Mismatch)),
        }
    }

    fn encode(&self) -> (doc: Json) {
        let mut items: Vec<Json> = Vec::new();
        let mut i: usize = 0;
        while i < self.len()
            invariant
                i <= self.len(),
                items.len() == i,
                forall|j: int|
                    0 <= j < i ==> (#[trigger] items@[j])@ == T::encoded(self@[j].deep_view()),
            decreases self.len() - i,
        {
            items.push(self[i].encode());
            i = i + 1;
        }
        proof {
            lemma_items_view(items@);
        }
        assert(items_view(items@) =~= encoded_items::<T>(self.deep_view()));
        Json::Array(items)
    }

    proof fn decoded_is_valid(doc: JsonView) {
        if let JsonView::Array(items) = doc {
            if let Ok(values) = decoded_items::<T>(items) {
                lemma_decoded_items::<T>(items);
                assert forall|i: int| 0 <= i < values.len() implies T::valid(
                    #[trigger] values[i],
                ) by {
                    T::decoded_is_valid(items[i]);
                }
            }
        }
    }

    proof fn encoded_decodes(value: Seq<T::V>) {
        let items = encoded_items::<T>(value);
        assert forall|j: int| 0 <= j < items.len() implies T::decoded(#[trigger] items[j]) == Ok::<
            T::V,
            DecodeErrorView,
        >(value[j]) by {
            T::encoded_decodes(value[j]);
        }
        lemma_decoded_prefix::<T>(items);
        lemma_decoded_items::<T>(items);
        let values = decoded_items::<T>(items)->Ok_0;
        assert forall|j: int| 0 <= j < value.len() implies values[j] == value[j] by {
            assert(T::decoded(items[j]) == Ok::<T::V, DecodeErrorView>(values[j]));
        }
        assert(values =~= value);
    }
}

} // verus!
