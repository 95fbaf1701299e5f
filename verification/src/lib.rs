//! Totals over a heterogeneous list of JSON values: the byte length of every
//! string and the sum of every integer, with everything else ignored.

pub mod data;
pub mod item;
pub mod json;
pub mod laws;
pub mod totals;

pub use data::{aggregate, process_data, AggregateError, DataRequest, DataResponse};
pub use item::{classify, Element, Item};
