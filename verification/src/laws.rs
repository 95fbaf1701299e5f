//! What holds of aggregation for every request.

use crate::data::{AggregateError, DataResponse};
use crate::item::Element;
use crate::totals::{int_total, int_value, outcome, text_len, text_total};
use vstd::prelude::*;
use vstd::seq_lib::{to_multiset_contains, to_multiset_len, to_multiset_remove};
use vstd::utf8::encode_utf8;

verus! {

/// The plain sum of a sequence of integers.
pub open spec fn sum(values: Seq<int>) -> int
    decreases values.len(),
{
    if values.len() == 0 {
        0
    } else {
        sum(values.drop_last()) + values.last()
    }
}

/// The byte length of each entry of a list that holds only strings.
pub open spec fn string_lengths(elements: Seq<Element>) -> Seq<int> {
    Seq::new(elements.len(), |i: int| encode_utf8(elements[i]->Text_0).len() as int)
}

/// The value of each entry of a list that holds only integers.
pub open spec fn integers(elements: Seq<Element>) -> Seq<int> {
    Seq::new(elements.len(), |i: int| elements[i]->Integer_0 as int)
}

/// A request without entries has both totals at zero.
pub proof fn lemma_empty_request()
    ensures
        outcome(Seq::<Element>::empty()) == Ok::<DataResponse, AggregateError>(
            DataResponse { string_len: 0, int_sum: 0 },
        ),
{
}

/// A request that holds only strings has an integer total of zero and a
/// length total that is the sum of the byte lengths of its strings. It has a
/// response, with these two totals, exactly where that sum fits in `usize`.
pub proof fn lemma_only_strings(elements: Seq<Element>)
    requires
        forall|i: int| 0 <= i < elements.len() ==> elements[i] is Text,
    ensures
        int_total(elements) == 0,
        text_total(elements) == sum(string_lengths(elements)),
        outcome(elements) == if sum(string_lengths(elements)) <= usize::MAX {
            Ok::<DataResponse, AggregateError>(
                DataResponse { string_len: sum(string_lengths(elements)) as usize, int_sum: 0 },
            )
        } else {
            Err::<DataResponse, AggregateError>(AggregateError::TextLengthOverflow)
        },
    decreases elements.len(),
{
    if elements.len() > 0 {
        let front = elements.drop_last();
        lemma_only_strings(front);
        assert(string_lengths(elements).drop_last() =~= string_lengths(front));
    }
}

/// A request that holds only integers has a length total of zero and an
/// integer total that is the arithmetic sum of its integers. It has a
/// response, with these two totals, exactly where that sum is within `i64`.
pub proof fn lemma_only_integers(elements: Seq<Element>)
    requires
        forall|i: int| 0 <= i < elements.len() ==> elements[i] is Integer,
    ensures
        text_total(elements) == 0,
        int_total(elements) == sum(integers(elements)),
        outcome(elements) == if i64::MIN <= sum(integers(elements)) <= i64::MAX {
            Ok::<DataResponse, AggregateError>(
                DataResponse { string_len: 0, int_sum: sum(integers(elements)) as i64 },
            )
        } else {
            Err::<DataResponse, AggregateError>(AggregateError::SumOutOfRange)
        },
    decreases elements.len(),
{
    if elements.len() > 0 {
        let front = elements.drop_last();
        lemma_only_integers(front);
        assert(integers(elements).drop_last() =~= integers(front));
    }
}

/// Taking one entry out of a list takes its share out of each total.
pub proof fn lemma_totals_remove(elements: Seq<Element>, i: int)
    requires
        0 <= i < elements.len(),
    ensures
        text_total(elements) == text_total(elements.remove(i)) + text_len(elements[i]),
        int_total(elements) == int_total(elements.remove(i)) + int_value(elements[i]),
    decreases elements.len(),
{
    if i == elements.len() - 1 {
        assert(elements.remove(i) =~= elements.drop_last());
    } else {
        lemma_totals_remove(elements.drop_last(), i);
        assert(elements.remove(i).drop_last() =~= elements.drop_last().remove(i));
    }
}

/// An entry that is neither a string nor a number changes nothing, wherever
/// it is put into a list: both totals stay, and so does the response.
pub proof fn lemma_other_is_ignored(elements: Seq<Element>, i: int)
    requires
        0 <= i <= elements.len(),
    ensures
        text_total(elements.insert(i, Element::Other)) == text_total(elements),
        int_total(elements.insert(i, Element::Other)) == int_total(elements),
        outcome(elements.insert(i, Element::Other)) == outcome(elements),
{
    let longer = elements.insert(i, Element::Other);
    assert(longer.remove(i) =~= elements);
    lemma_totals_remove(longer, i);
    assert(longer.contains(Element::OtherNumber) == elements.contains(Element::OtherNumber)) by {
        if elements.contains(Element::OtherNumber) {
            let k = choose|k: int| 0 <= k < elements.len() && elements[k] == Element::OtherNumber;
            assert(longer[if k < i { k } else { k + 1 }] == Element::OtherNumber);
        }
        if longer.contains(Element::OtherNumber) {
            let k = choose|k: int| 0 <= k < longer.len() && longer[k] == Element::OtherNumber;
            assert(elements[if k < i { k } else { k - 1 }] == Element::OtherNumber);
        }
    }
}

/// The order of the entries does not matter: two lists that hold the same
/// entries the same number of times have the same totals and the same
/// response.
pub proof fn lemma_order_is_irrelevant(first: Seq<Element>, second: Seq<Element>)
    requires
        first.to_multiset() == second.to_multiset(),
    ensures
        text_total(first) == text_total(second),
        int_total(first) == int_total(second),
        outcome(first) == outcome(second),
    decreases first.len(),
{
    to_multiset_len(first);
    to_multiset_len(second);
    to_multiset_contains(first, Element::OtherNumber);
    to_multiset_contains(second, Element::OtherNumber);
    if first.len() > 0 {
        let entry = first.last();
        to_multiset_contains(first, entry);
        to_multiset_contains(second, entry);
        assert(first.contains(entry)) by {
            assert(first[first.len() - 1] == entry);
        }
        let j = choose|j: int| 0 <= j < second.len() && second[j] == entry;
        to_multiset_remove(first, first.len() - 1);
        to_multiset_remove(second, j);
        lemma_totals_remove(first, first.len() - 1);
        lemma_totals_remove(second, j);
        lemma_order_is_irrelevant(first.remove(first.len() - 1), second.remove(j));
    }
}

} // verus!
