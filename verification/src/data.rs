//! Requests and their aggregation.

use crate::item::{classify, element_of, elements, elements_of, Element, Item};
use crate::totals::{int_total, lemma_totals_push, outcome, text_total};
use serde_json::Value;
use vstd::prelude::*;

verus! {

/// A request: an ordered list of JSON values of any kind.
#[derive(Debug)]
pub struct DataRequest {
    /// The values to aggregate.
    pub data: Vec<Value>,
}

/// The totals of a request that can be aggregated.
#[derive(Debug, Clone, Copy, PartialEq, Eq)]
pub struct DataResponse {
    /// The byte lengths of all strings, added up.
    pub string_len: usize,
    /// All integers, added up.
    pub int_sum: i64,
}

/// Why a request has no totals.
#[derive(Debug, Clone, Copy, PartialEq, Eq)]
pub enum AggregateError {
    /// Some entry is a number that is no integer within the range of `i64`.
    NotAnInteger,
    /// The byte lengths of the strings add up to more than `usize::MAX`.
    TextLengthOverflow,
    /// The integers add up to a value outside the range of `i64`.
    SumOutOfRange,
}

impl View for DataRequest {
    type V = Seq<Element>;

    /// The elements that the values of the request stand for, in order.
    open spec fn view(&self) -> Seq<Element> {
        elements_of(self.data@)
    }
}

/// After `count < usize::MAX` steps the running totals are within `count`
/// times the bounds of one step, and one more step of any size keeps them
/// within `u128` and `i128`.
proof fn lemma_wide_totals_have_room(count: int, text: int, sum: int)
    requires
        0 <= count < usize::MAX,
        0 <= text <= count * usize::MAX,
        count * i64::MIN <= sum <= count * i64::MAX,
    ensures
        text + usize::MAX <= (count + 1) * usize::MAX <= u128::MAX,
        i128::MIN <= (count + 1) * i64::MIN <= sum + i64::MIN,
        sum + i64::MAX <= (count + 1) * i64::MAX <= i128::MAX,
{
    let width: int = 0xffff_ffff_ffff_ffff;
    assert(usize::MAX <= width);
    assert((count + 1) * usize::MAX == count * usize::MAX + usize::MAX) by (nonlinear_arith);
    assert((count + 1) * i64::MAX == count * i64::MAX + i64::MAX) by (nonlinear_arith);
    assert((count + 1) * i64::MIN == count * i64::MIN + i64::MIN) by (nonlinear_arith);
    assert((count + 1) * usize::MAX <= width * width) by (nonlinear_arith)
        requires
            0 <= count + 1 <= width,
            0 <= usize::MAX <= width,
    ;
    assert((count + 1) * i64::MAX <= width * i64::MAX) by (nonlinear_arith)
        requires
            0 <= count + 1 <= width,
    ;
    assert((count + 1) * i64::MIN >= width * i64::MIN) by (nonlinear_arith)
        requires
            0 <= count + 1 <= width,
    ;
}

/// Adds up a list of items: the byte length of every string into one total,
/// every integer into the other. The running totals are kept wide enough
/// never to overflow, so only the final totals decide whether the list has a
/// response, in whatever order its items stand.
pub fn aggregate(items: &[Item]) -> (result: Result<DataResponse, AggregateError>)
    ensures
        result == outcome(elements(items@)),
{
    let ghost all = elements(items@);
    let mut text: u128 = 0;
    let mut sum: i128 = 0;
    let mut i: usize = 0;
    while i < items.len()
        invariant
            i <= items.len(),
            all == elements(items@),
            forall|k: int| 0 <= k < i ==> all[k] != Element::OtherNumber,
            text == text_total(all.take(i as int)),
            sum == int_total(all.take(i as int)),
            text <= i * usize::MAX,
            i * i64::MIN <= sum <= i * i64::MAX,
        decreases items.len() - i,
    {
        proof {
            assert(all.take(i + 1) =~= all.take(i as int).push(all[i as int]));
            lemma_totals_push(all.take(i as int), all[i as int]);
            lemma_wide_totals_have_room(i as int, text as int, sum as int);
        }
        match items[i] {
            Item::Text(slice) => {
                text = text + slice.as_bytes().len() as u128;
            },
            Item::Integer(n) => {
                sum = sum + n as i128;
            },
            Item::OtherNumber => {
                assert(all[i as int] == Element::OtherNumber);
                return Err(AggregateError::NotAnInteger);
            },
            Item::Other => {},
        }
        i += 1;
    }
    assert(all.take(i as int) =~= all);
    if text > usize::MAX as u128 {
        return Err(AggregateError::TextLengthOverflow);
    }
    if sum < i64::MIN as i128 || sum > i64::MAX as i128 {
        return Err(AggregateError::SumOutOfRange);
    }
    Ok(DataResponse { string_len: text as usize, int_sum: sum as i64 })
}

/// Aggregates a request: reads each value into an item, then adds the items
/// up.
pub fn process_data(request: &DataRequest) -> (result: Result<DataResponse, AggregateError>)
    ensures
        result == outcome(request@),
{
    let mut items: Vec<Item> = Vec::with_capacity(request.data.len());
    let mut i: usize = 0;
    while i < request.data.len()
        invariant
            i <= request.data.len(),
            items.len() == i,
            forall|k: int| 0 <= k < i ==> items[k]@ == element_of(request.data[k]),
        decreases request.data.len() - i,
    {
        items.push(classify(&request.data[i]));
        i += 1;
    }
    assert(elements(items@) =~= request@);
    aggregate(items.as_slice())
}

} // verus!
