//! The part of `serde_json` that aggregation reads.
//!
//! Nothing in this file is proved. `serde_json::Value` is declared as an
//! opaque type, three functions without a body name what three of its
//! accessors return, and each accessor gets a contract that ties its result
//! to that name and says nothing more.

use serde_json::Value;
use vstd::prelude::*;

verus! {

/// `serde_json::Value`, any JSON value. Verified code carries it around and
/// reads it only through the accessors below.
#[verifier::external_type_specification]
#[verifier::external_body]
pub struct ExValue(serde_json::Value);

/// The text of `value` where it is a JSON string, `None` for any other value:
/// what `serde_json::Value::as_str` returns, as a sequence of characters.
pub uninterp spec fn value_str(value: Value) -> Option<Seq<char>>;

/// Whether `value` is a JSON number, integral or not: what
/// `serde_json::Value::is_number` returns.
pub uninterp spec fn value_is_number(value: Value) -> bool;

/// The integer that `value` holds where it is a JSON number that is an
/// integer within the range of `i64`, `None` for any other value: what
/// `serde_json::Value::as_i64` returns.
pub uninterp spec fn value_i64(value: Value) -> Option<i64>;

/// `serde_json::Value::as_str` hands out the string slice of a string value
/// and `None` otherwise. The contract claims only that the slice, read as
/// characters, is `value_str` of the value.
pub assume_specification[ serde_json::Value::as_str ](value: &Value) -> (text: Option<&str>)
    ensures
        match text {
            Some(slice) => value_str(*value) == Some(slice@),
            None => value_str(*value) is None,
        },
;

/// `serde_json::Value::is_number` tells a number from every other value. The
/// contract claims only that the answer is `value_is_number` of the value.
pub assume_specification[ serde_json::Value::is_number ](value: &Value) -> (number: bool)
    ensures
        number == value_is_number(*value),
;

/// `serde_json::Value::as_i64` gives the integer of a number that fits in
/// `i64` and `None` for a fraction, for a larger integer and for a value that
/// is no number. The contract claims only that the result is `value_i64` of
/// the value.
pub assume_specification[ serde_json::Value::as_i64 ](value: &Value) -> (integer: Option<i64>)
    ensures
        integer == value_i64(*value),
;

} // verus!
