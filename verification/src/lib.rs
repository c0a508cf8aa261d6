//! Compiler core for a teaching-lab CPU trainer's micro-operation language.
//!
//! An expression tree (an optional assignment plus a list of flags) is
//! compiled into a 56-bit control word: domain rule tables decide which
//! hardware control fields each operand combination activates, the field
//! values are accumulated in a per-field slot map with a
//! default/locked/collision merge policy, and the final map is packed into
//! seven big-endian bytes.

pub mod encoder;
pub mod error;
pub mod expr;
pub mod field_map;
pub mod instrument;
pub mod laws;
pub mod parser;
pub mod rules;
pub mod signal;
pub mod token;

pub use error::{CanNotBeAchievedReason, Error};
