//! What aggregation computes, stated over sequences of elements.

use crate::data::{AggregateError, DataResponse};
use crate::item::Element;
use vstd::prelude::*;
use vstd::utf8::encode_utf8;

verus! {

/// What one element adds to the length total: the number of bytes of its
/// UTF-8 encoding where it is text, nothing otherwise.
pub open spec fn text_len(element: Element) -> nat {
    match element {
        Element::Text(text) => encode_utf8(text).len(),
        _ => 0,
    }
}

/// What one element adds to the integer total: its value where it is an
/// integer, nothing otherwise.
pub open spec fn int_value(element: Element) -> int {
    match element {
        Element::Integer(n) => n as int,
        _ => 0,
    }
}

/// The byte lengths of all text elements, added up.
pub open spec fn text_total(elements: Seq<Element>) -> nat
    decreases elements.len(),
{
    if elements.len() == 0 {
        0
    } else {
        text_total(elements.drop_last()) + text_len(elements.last())
    }
}

/// The values of all integer elements, added up.
pub open spec fn int_total(elements: Seq<Element>) -> int
    decreases elements.len(),
{
    if elements.len() == 0 {
        0
    } else {
        int_total(elements.drop_last()) + int_value(elements.last())
    }
}

/// The response to a request with the given elements. A number that is no
/// integer rejects the request wherever it stands; after that the two totals
/// must fit their fields.
pub open spec fn outcome(elements: Seq<Element>) -> Result<DataResponse, AggregateError> {
    if elements.contains(Element::OtherNumber) {
        Err(AggregateError::NotAnInteger)
    } else if text_total(elements) > usize::MAX {
        Err(AggregateError::TextLengthOverflow)
    } else if int_total(elements) < i64::MIN || int_total(elements) > i64::MAX {
        Err(AggregateError::SumOutOfRange)
    } else {
        Ok(
            DataResponse {
                string_len: text_total(elements) as usize,
                int_sum: int_total(elements) as i64,
            },
        )
    }
}

/// One more element adds its own share to each total.
pub proof fn lemma_totals_push(elements: Seq<Element>, element: Element)
    ensures
        text_total(elements.push(element)) == text_total(elements) + text_len(element),
        int_total(elements.push(element)) == int_total(elements) + int_value(element),
{
    assert(elements.push(element).drop_last() =~= elements);
}

} // verus!
