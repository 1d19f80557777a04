//! A tri-state optional value for data-transfer objects.
//!
//! A field of a record can be missing from a payload, present but null, or
//! present with data. [`Maybe`] keeps the three apart, so that a consumer can
//! tell "leave unchanged" from "clear" from "set".
//!
//! - [`tristate`] holds the type, its predicates and its conversions to and
//!   from `Option`.
//! - [`encoding`] holds what a structured encoder and decoder do with a field
//!   of the type.
//! - [`input`] reads the type from a query argument and writes it back.
//! - [`laws`] states what holds of every value.
//!
//! The functions that meet an encoder, a decoder or a parser take it as a
//! function value and say in their contracts what they hand to it and what
//! they make of its answer.

pub mod encoding;
pub mod input;
pub mod laws;
pub mod tristate;

pub use crate::tristate::Maybe;
