//! The entry point: the strict stage, then the lenient one, then the verdict.

use vstd::prelude::*;
use crate::error::{ParseFailure, TimeError};
use crate::lenient::{lenient_reading, parse_with_chrono};
use crate::strict::{parse_strict, strict_reading};
use crate::value::{representable, Time};

verus! {

/// The verdict on a text, from what the two stages make of it. The instant is
/// in nanoseconds since the Unix epoch.
///
/// An instant that the strict stage reads is the answer if a [`Time`] can hold
/// it, and [`TimeError::OutOfRange`] if not; the lenient stage has no say.
/// Where the strict stage objects, the lenient stage's instant is the answer,
/// and where there is none either, the strict stage's objection is the error.
pub open spec fn resolved(strict: Result<int, ParseFailure>, lenient: Option<int>) -> Result<int, TimeError> {
    match strict {
        Ok(n) => if representable(n) {
            Ok(n)
        } else {
            Err(TimeError::OutOfRange)
        },
        Err(failure) => match lenient {
            Some(n) => Ok(n),
            None => Err(TimeError::TimeFormat(failure)),
        },
    }
}

/// What [`consume`] makes of `text`: the instant in nanoseconds since the Unix
/// epoch, or the error.
pub open spec fn consumed(text: Seq<char>) -> Result<int, TimeError> {
    resolved(strict_reading(text), lenient_reading(text))
}

/// Decides between the outcomes of the two stages, as [`resolved`] says.
/// `lenient` is looked at only where `strict` is an objection.
pub fn resolve(strict: Result<i128, ParseFailure>, lenient: Option<Time>) -> (r: Result<Time, TimeError>)
    ensures
        r matches Ok(t) ==> match strict {
            Ok(n) => representable(n as int) && t@ == n,
            Err(_) => lenient == Some(t),
        },
        r matches Err(e) ==> match strict {
            Ok(n) => !representable(n as int) && e == TimeError::OutOfRange,
            Err(failure) => lenient is None && e == TimeError::TimeFormat(failure),
        },
{
    match strict {
        Ok(n) => match Time::from_unix_nanos(n) {
            Some(t) => Ok(t),
            None => Err(TimeError::OutOfRange),
        },
        Err(failure) => match lenient {
            Some(t) => Ok(t),
            None => Err(TimeError::TimeFormat(failure)),
        },
    }
}

/// Reads the text of a time element.
///
/// The text is read with the strict grammar. Where that grammar rejects it,
/// the tolerated variants are tried on it as it came, untrimmed. Where they
/// fail too, the error carries the strict grammar's objection. The value that
/// comes out is the instant at UTC, whatever offset the text carries.
pub fn consume(text: &str) -> (r: Result<Time, TimeError>)
    ensures
        r matches Ok(t) ==> (consumed(text@) matches Ok(n) && n == t@),
        r matches Err(e) ==> (consumed(text@) matches Err(f) && f == e),
{
    let strict = parse_strict(text);
    let lenient = if strict.is_err() {
        parse_with_chrono(text)
    } else {
        None
    };
    resolve(strict, lenient)
}

} // verus!
