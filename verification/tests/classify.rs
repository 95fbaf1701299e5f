//! Reading JSON values into items, through `serde_json` itself.

use data_aggregator::{classify, Item};
use serde_json::{Number, Value};

#[test]
fn a_string_is_text() {
    let value = Value::String(String::from("ab"));
    assert_eq!(classify(&value), Item::Text("ab"));
}

#[test]
fn an_empty_string_is_text() {
    let value = Value::String(String::new());
    assert_eq!(classify(&value), Item::Text(""));
}

#[test]
fn a_string_of_digits_is_text() {
    let value = Value::String(String::from("42"));
    assert_eq!(classify(&value), Item::Text("42"));
}

#[test]
fn a_small_integer_is_an_integer() {
    assert_eq!(classify(&Value::from(3)), Item::Integer(3));
    assert_eq!(classify(&Value::from(0)), Item::Integer(0));
    assert_eq!(classify(&Value::from(-17)), Item::Integer(-17));
}

#[test]
fn the_bounds_of_i64_are_integers() {
    assert_eq!(classify(&Value::from(i64::MAX)), Item::Integer(i64::MAX));
    assert_eq!(classify(&Value::from(i64::MIN)), Item::Integer(i64::MIN));
    assert_eq!(classify(&Value::from(i64::MAX as u64)), Item::Integer(i64::MAX));
}

#[test]
fn an_integer_beyond_i64_is_another_number() {
    assert_eq!(classify(&Value::from(i64::MAX as u64 + 1)), Item::OtherNumber);
    assert_eq!(classify(&Value::from(u64::MAX)), Item::OtherNumber);
}

#[test]
fn a_fraction_is_another_number() {
    let value = Value::Number(Number::from_f64(1.5).unwrap());
    assert_eq!(classify(&value), Item::OtherNumber);
}

#[test]
fn a_float_with_a_whole_value_is_another_number() {
    let value = Value::Number(Number::from_f64(3.0).unwrap());
    assert_eq!(classify(&value), Item::OtherNumber);
    let parsed: Value = serde_json::from_str("3.0").unwrap();
    assert_eq!(classify(&parsed), Item::OtherNumber);
}

#[test]
fn null_and_booleans_are_other() {
    assert_eq!(classify(&Value::Null), Item::Other);
    assert_eq!(classify(&Value::Bool(true)), Item::Other);
    assert_eq!(classify(&Value::Bool(false)), Item::Other);
}

#[test]
fn arrays_and_objects_are_other_whatever_they_hold() {
    let array = Value::Array(vec![Value::String(String::from("ab")), Value::from(3)]);
    assert_eq!(classify(&array), Item::Other);
    let mut fields = serde_json::Map::new();
    fields.insert(String::from("x"), Value::from(1));
    assert_eq!(classify(&Value::Object(fields)), Item::Other);
    assert_eq!(classify(&Value::Array(Vec::new())), Item::Other);
}
