//! A verified library for keeping bibliographic source records and turning
//! them into citation text.
//!
//! The library owns the two parts of the system with real invariants: the
//! repository with its read cache, whose snapshot is only ever replaced
//! wholesale and stays ordered against writes by sequence numbers, and the
//! template formatter, a pure function from a record, a format standard and
//! a custom template to citation text.  Storage, configuration files and
//! the interface around them stay outside and talk to the library in plain
//! values.

use vstd::prelude::*;

pub mod args;
pub mod cache;
pub mod chars;
pub mod config;
pub mod date;
pub mod digits;
pub mod format;
pub mod repo;
pub mod source;
pub mod store;

pub use date::Date;

verus! {

} // verus!
