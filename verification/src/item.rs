//! One entry of a request, as aggregation sees it: a piece of text, an
//! integer, a number that is no 64-bit integer, or anything else.

use crate::json::{value_i64, value_is_number, value_str};
use serde_json::Value;
use vstd::prelude::*;

verus! {

/// The mathematical content of one entry.
pub enum Element {
    /// A string, as its characters.
    Text(Seq<char>),
    /// A number that is an integer within the range of `i64`.
    Integer(i64),
    /// Any other number: a fraction, or an integer beyond `i64`.
    OtherNumber,
    /// Null, a boolean, an array or an object.
    Other,
}

/// One entry in executable form. `Text` borrows the string it stands for.
#[derive(Debug, Clone, Copy, PartialEq, Eq)]
pub enum Item<'a> {
    /// A string.
    Text(&'a str),
    /// A number that is an integer within the range of `i64`.
    Integer(i64),
    /// Any other number: a fraction, or an integer beyond `i64`.
    OtherNumber,
    /// Null, a boolean, an array or an object.
    Other,
}

impl<'a> View for Item<'a> {
    type V = Element;

    open spec fn view(&self) -> Element {
        match *self {
            Item::Text(text) => Element::Text(text@),
            Item::Integer(n) => Element::Integer(n),
            Item::OtherNumber => Element::OtherNumber,
            Item::Other => Element::Other,
        }
    }
}

/// The element that a JSON value stands for. A string is text whatever else
/// might be said of it; a value that is no string is asked whether it is a
/// number, and a number is an integer exactly where it has an `i64` reading.
pub open spec fn element_of(value: Value) -> Element {
    match value_str(value) {
        Some(text) => Element::Text(text),
        None => if value_is_number(value) {
            match value_i64(value) {
                Some(n) => Element::Integer(n),
                None => Element::OtherNumber,
            }
        } else {
            Element::Other
        },
    }
}

/// The elements of a list of JSON values, in order.
pub open spec fn elements_of(values: Seq<Value>) -> Seq<Element> {
    values.map_values(|value: Value| element_of(value))
}

/// The elements of a list of items, in order.
pub open spec fn elements(items: Seq<Item>) -> Seq<Element> {
    items.map_values(|item: Item| item@)
}

/// Reads one JSON value into an item.
pub fn classify(value: &Value) -> (item: Item<'_>)
    ensures
        item@ == element_of(*value),
{
    match value.as_str() {
        Some(text) => Item::Text(text),
        None => if value.is_number() {
            match value.as_i64() {
                Some(n) => Item::Integer(n),
                None => Item::OtherNumber,
            }
        } else {
            Item::Other
        },
    }
}

} // verus!
