//! The ways in which reading or rendering a time value fails.

use vstd::prelude::*;

verus! {

/// What the strict grammar objected to in a text.
#[derive(Debug, Clone, Copy, PartialEq, Eq)]
pub enum ParseFailure {
    /// A separator or marker that the grammar asks for is not where it should be.
    InvalidLiteral,
    /// The named component is malformed or holds a value it cannot take.
    InvalidComponent(&'static str),
    /// The text goes on after the value has ended.
    UnexpectedTrailingCharacters,
    /// The text lacks a component without which there is no date and time.
    InsufficientInformation,
    /// The named component is outside its range, by itself or given the others.
    ComponentRange(&'static str),
    /// A cause that the grammar's implementation reports and this list does not know.
    Other,
}

/// Why no time value, or no text, came out.
#[derive(Debug, Clone, Copy, PartialEq, Eq)]
pub enum TimeError {
    /// Neither the strict grammar nor the tolerated variants read the text.
    /// The cause is the strict grammar's, whatever the variants made of it.
    TimeFormat(ParseFailure),
    /// The strict grammar reads the text, but the instant it denotes lies
    /// outside the years -9999 to 9999 at UTC.
    OutOfRange,
    /// The instant has no canonical text.
    Rendering,
}

} // verus!
