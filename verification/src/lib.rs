//! Value formats for OpenDocument spreadsheets.
//!
//! A [`format::ValueFormat`] is a named, typed display-format definition: an
//! ordered sequence of structural parts (day, month, literal text, number,
//! ...) together with optional locale attributes. The render functions walk
//! the part sequence in order and append each part's textual contribution for
//! the value being formatted.

use vstd::prelude::*;

pub mod format;
pub mod textnum;
pub mod attrmap2;
pub mod locales;
pub mod datetime;
pub mod style;

pub use format::ValueFormat;
pub use format::ValueFormatRef;
pub use format::ValueFormatError;

verus! {

/// The semantic kind of value a format is meant for.
///
/// `Empty` is a sentinel for cells without a value; a format is never typed
/// `Empty`.
#[derive(Debug, Clone, Copy, PartialEq, Eq, Structural)]
pub enum ValueType {
    Empty,
    Boolean,
    Number,
    Percentage,
    Currency,
    Text,
    TimeDuration,
    DateTime,
}

} // verus!
