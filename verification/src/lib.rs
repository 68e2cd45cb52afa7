//! Positions, spans and error kinds shared by every caller of the parsing engine.
//!
//! A [`Point`] is a (row, column) coordinate, a [`Range`] a span of bytes with
//! the positions of its two ends, and each error kind holds one diagnostic of
//! the engine. All of them are plain values: built once, never changed, and
//! free to be shared and sent between threads.

pub mod decimal;
pub mod error;
pub mod point;
pub mod range;

pub use crate::error::{IncludedRangesError, LanguageError, ParserError, QueryError};
pub use crate::point::Point;
pub use crate::range::Range;
