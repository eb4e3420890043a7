//! The strict stage: the canonical ISO 8601 grammar,
//! `[-]CCYY-MM-DDThh:mm:ss[.fraction][Z|±hh:mm]`.
//!
//! A text is read first as a date and time with an offset. Where that fails it
//! is read as a date and time alone, which then stand at UTC.

use vstd::prelude::*;
use time::error::{Parse, ParseFromDescription, TryFromParsed};
use time::format_description::well_known::Iso8601;
use crate::error::ParseFailure;

verus! {

/// The instant that the ISO 8601 grammar reads from `text` when it asks for an
/// offset, in nanoseconds since the Unix epoch; `None` where it reads none.
pub uninterp spec fn offset_date_time_reading(text: Seq<char>) -> Option<int>;

/// The instant that the ISO 8601 grammar reads from `text` when it takes date
/// and time alone and places them at UTC, in nanoseconds since the Unix epoch,
/// or what it objects to.
pub uninterp spec fn plain_date_time_reading(text: Seq<char>) -> Result<int, ParseFailure>;

/// What the strict stage makes of `text`: the reading with an offset where
/// there is one, else the reading without. The objection, where both fail, is
/// that of the reading without an offset.
pub open spec fn strict_reading(text: Seq<char>) -> Result<int, ParseFailure> {
    first_reading(offset_date_time_reading(text), plain_date_time_reading(text))
}

/// The first of two readings that is there, the one with an offset before the
/// one without.
pub open spec fn first_reading(with_offset: Option<int>, plain: Result<int, ParseFailure>) -> Result<int, ParseFailure> {
    match with_offset {
        Some(n) => Ok(n),
        None => plain,
    }
}

/// `time::OffsetDateTime::parse` with `Iso8601::PARSING`, the value then taken
/// as nanoseconds since the Unix epoch. The contract only names the outcome:
/// the same text always reads as the same instant.
#[verifier::external_body]
fn read_offset_date_time(text: &str) -> (r: Option<i128>)
    ensures
        r matches Some(n) ==> offset_date_time_reading(text@) == Some(n as int),
        r is None ==> offset_date_time_reading(text@) is None,
{
    match time::OffsetDateTime::parse(text, &Iso8601::PARSING) {
        Ok(t) => Some(t.unix_timestamp_nanos()),
        Err(_) => None,
    }
}

/// `time::PrimitiveDateTime::parse` with `Iso8601::PARSING`, the date and time
/// then taken as UTC and as nanoseconds since the Unix epoch. The contract only
/// names the outcome: the same text always reads as the same instant, or meets
/// the same objection.
#[verifier::external_body]
fn read_plain_date_time(text: &str) -> (r: Result<i128, ParseFailure>)
    ensures
        r matches Ok(n) ==> (plain_date_time_reading(text@) matches Ok(m) && m == n),
        r matches Err(e) ==> (plain_date_time_reading(text@) matches Err(f) && f == e),
{
    match time::PrimitiveDateTime::parse(text, &Iso8601::PARSING) {
        Ok(t) => Ok(t.assume_utc().unix_timestamp_nanos()),
        Err(Parse::ParseFromDescription(ParseFromDescription::InvalidLiteral { .. })) => Err(ParseFailure::InvalidLiteral),
        Err(Parse::ParseFromDescription(ParseFromDescription::InvalidComponent(name))) => Err(ParseFailure::InvalidComponent(name)),
        Err(Parse::ParseFromDescription(ParseFromDescription::UnexpectedTrailingCharacters { .. })) => Err(ParseFailure::UnexpectedTrailingCharacters),
        Err(Parse::TryFromParsed(TryFromParsed::InsufficientInformation)) => Err(ParseFailure::InsufficientInformation),
        Err(Parse::TryFromParsed(TryFromParsed::ComponentRange(range))) => Err(ParseFailure::ComponentRange(range.name())),
        Err(_) => Err(ParseFailure::Other),
    }
}

/// Reads `text` with the strict grammar. The instant is in nanoseconds since
/// the Unix epoch, whatever offset the text carries.
pub fn parse_strict(text: &str) -> (r: Result<i128, ParseFailure>)
    ensures
        r matches Ok(n) ==> (strict_reading(text@) matches Ok(m) && m == n),
        r matches Err(e) ==> (strict_reading(text@) matches Err(f) && f == e),
{
    match read_offset_date_time(text) {
        Some(n) => Ok(n),
        None => read_plain_date_time(text),
    }
}

} // verus!
