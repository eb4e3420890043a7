//! The lenient stage: a fixed, ordered list of date and time patterns for the
//! texts that the strict grammar rejects.
//!
//! The text is first prepared (see [`crate::text::prepared`]). Then the
//! patterns that ask for a numeric offset are tried in order, then those that
//! take date and time alone and place them at UTC. The first pattern that
//! matches with a year above zero decides.

use vstd::prelude::*;
use chrono::Datelike;
use crate::text::{prepare, prepared};
use crate::value::{representable, Time, NANOS_PER_SECOND};

verus! {

/// The patterns that ask for a numeric offset, in the order in which they are
/// tried: date and time separated by a space; separated by `T`, with an
/// optional fraction of a second; separated by `T`, without a fraction.
pub const OFFSET_BEARING: [&'static str; 3] = [
    "%Y-%m-%d %H:%M:%S %z",
    "%Y-%m-%dT%H:%M:%S%.f%z",
    "%Y-%m-%dT%H:%M:%S%z",
];

/// The patterns without an offset, in the order in which they are tried: date
/// and time separated by a space; separated by `T`, with an optional fraction
/// of a second; separated by `T`, without a fraction.
pub const UTC_IMPLIED: [&'static str; 3] = [
    "%Y-%m-%d %H:%M:%S",
    "%Y-%m-%dT%H:%M:%S%.f",
    "%Y-%m-%dT%H:%M:%S",
];

/// What a pattern with an offset reads from a text.
#[derive(Debug, Clone, Copy, PartialEq, Eq)]
pub struct OffsetReading {
    /// The calendar year as written, before the offset is applied.
    pub year: i32,
    /// The instant in nanoseconds since the Unix epoch, the offset applied;
    /// `None` where 64 bits do not hold it.
    pub unix_nanos: Option<i64>,
}

/// What a pattern without an offset reads from a text.
#[derive(Debug, Clone, Copy, PartialEq, Eq)]
pub struct PlainReading {
    /// The calendar year as written.
    pub year: i32,
    /// The whole seconds between the Unix epoch and the date and time, taken
    /// as UTC.
    pub unix_seconds: i64,
    /// The nanoseconds after the whole second.
    pub subsec_nanos: u32,
}

/// What `pattern`, which asks for an offset, reads from `text`; `None` where
/// it does not match.
pub uninterp spec fn offset_reading(text: Seq<char>, pattern: Seq<char>) -> Option<OffsetReading>;

/// What `pattern`, which takes date and time alone, reads from `text`; `None`
/// where it does not match.
pub uninterp spec fn plain_reading(text: Seq<char>, pattern: Seq<char>) -> Option<PlainReading>;

/// `chrono::DateTime::parse_from_str`, and of the value it gives the year
/// (`Datelike::year`) and the instant (`timestamp_nanos_opt`). The contract
/// only names the outcome: the same text and pattern always read the same.
#[verifier::external_body]
fn read_with_offset(text: &str, pattern: &str) -> (r: Option<OffsetReading>)
    ensures
        r == offset_reading(text@, pattern@),
{
    match chrono::DateTime::parse_from_str(text, pattern) {
        Ok(t) => Some(OffsetReading { year: t.year(), unix_nanos: t.timestamp_nanos_opt() }),
        Err(_) => None,
    }
}

/// `chrono::NaiveDateTime::parse_from_str`, and of the value it gives the year
/// (`Datelike::year`) and, taken as UTC (`and_utc`), the seconds since the Unix
/// epoch (`timestamp`) and the nanoseconds after them
/// (`timestamp_subsec_nanos`). The contract only names the outcome: the same
/// text and pattern always read the same.
#[verifier::external_body]
fn read_plain(text: &str, pattern: &str) -> (r: Option<PlainReading>)
    ensures
        r == plain_reading(text@, pattern@),
{
    match chrono::NaiveDateTime::parse_from_str(text, pattern) {
        Ok(t) => Some(PlainReading { year: t.year(), unix_seconds: t.and_utc().timestamp(), subsec_nanos: t.and_utc().timestamp_subsec_nanos() }),
        Err(_) => None,
    }
}

/// The instant of a reading with an offset, if the reading counts: the year
/// is above zero and the instant is known.
pub open spec fn accepted_offset(reading: OffsetReading) -> Option<int> {
    if reading.year > 0 && reading.unix_nanos is Some {
        Some(reading.unix_nanos->0 as int)
    } else {
        None
    }
}

/// The instant of a reading without an offset, if the reading counts: the
/// year is above zero. The date and time stand at UTC.
pub open spec fn accepted_plain(reading: PlainReading) -> Option<int> {
    if reading.year > 0 {
        Some(reading.unix_seconds * NANOS_PER_SECOND + reading.subsec_nanos)
    } else {
        None
    }
}

/// The instant that the `i`-th pattern with an offset gives for `text`.
pub open spec fn offset_candidate(text: Seq<char>, i: int) -> Option<int> {
    match offset_reading(text, OFFSET_BEARING[i]@) {
        Some(reading) => accepted_offset(reading),
        None => None,
    }
}

/// The instant that the `i`-th pattern without an offset gives for `text`.
pub open spec fn plain_candidate(text: Seq<char>, i: int) -> Option<int> {
    match plain_reading(text, UTC_IMPLIED[i]@) {
        Some(reading) => accepted_plain(reading),
        None => None,
    }
}

/// The instant of the first pattern with an offset, from the `from`-th on,
/// that gives one for `text`.
pub open spec fn first_offset_instant(text: Seq<char>, from: int) -> Option<int>
    decreases 3 - from,
{
    if from < 0 || from >= 3 {
        None
    } else if offset_candidate(text, from) is Some {
        offset_candidate(text, from)
    } else {
        first_offset_instant(text, from + 1)
    }
}

/// The instant of the first pattern without an offset, from the `from`-th on,
/// that gives one for `text`.
pub open spec fn first_plain_instant(text: Seq<char>, from: int) -> Option<int>
    decreases 3 - from,
{
    if from < 0 || from >= 3 {
        None
    } else if plain_candidate(text, from) is Some {
        plain_candidate(text, from)
    } else {
        first_plain_instant(text, from + 1)
    }
}

/// The instant that the lenient stage finds in `text`: that of the first
/// pattern that gives one for the prepared text, those with an offset before
/// those without.
pub open spec fn lenient_instant(text: Seq<char>) -> Option<int> {
    let ready = prepared(text);
    if first_offset_instant(ready, 0) is Some {
        first_offset_instant(ready, 0)
    } else {
        first_plain_instant(ready, 0)
    }
}

/// What the lenient stage makes of `text`: the instant it finds, if a
/// [`Time`] can hold it.
pub open spec fn lenient_reading(text: Seq<char>) -> Option<int> {
    match lenient_instant(text) {
        Some(n) => if representable(n) {
            Some(n)
        } else {
            None
        },
        None => None,
    }
}

/// The instant of a reading with an offset, in nanoseconds since the Unix
/// epoch, or `None` where the reading does not count: the year is zero or
/// below, or the instant is not known.
pub fn accept_offset_reading(reading: &OffsetReading) -> (r: Option<i128>)
    ensures
        r matches Some(n) ==> accepted_offset(*reading) == Some(n as int),
        r is None ==> accepted_offset(*reading) is None,
        r matches Some(n) ==> representable(n as int),
{
    if reading.year <= 0 {
        return None;
    }
    match reading.unix_nanos {
        Some(n) => Some(n as i128),
        None => None,
    }
}

/// The instant of a reading without an offset, in nanoseconds since the Unix
/// epoch, or `None` where the reading does not count: the year is zero or
/// below.
pub fn accept_plain_reading(reading: &PlainReading) -> (r: Option<i128>)
    ensures
        r matches Some(n) ==> accepted_plain(*reading) == Some(n as int),
        r is None ==> accepted_plain(*reading) is None,
{
    if reading.year <= 0 {
        return None;
    }
    Some(reading.unix_seconds as i128 * NANOS_PER_SECOND + reading.subsec_nanos as i128)
}

/// Reads `input` with the tolerated variants. The value is there where one of
/// the patterns gives an instant and a [`Time`] can hold it.
pub fn parse_with_chrono(input: &str) -> (r: Option<Time>)
    ensures
        r matches Some(t) ==> lenient_reading(input@) == Some(t@),
        r is None ==> lenient_reading(input@) is None,
{
    let ready = prepare(input);
    let text = ready.as_str();
    let mut i: usize = 0;
    while i < 3
        invariant
            i <= 3,
            text@ == prepared(input@),
            first_offset_instant(text@, 0) == first_offset_instant(text@, i as int),
        decreases 3 - i,
    {
        match read_with_offset(text, OFFSET_BEARING[i]) {
            Some(reading) => {
                match accept_offset_reading(&reading) {
                    Some(n) => {
                        return Time::from_unix_nanos(n);
                    },
                    None => {},
                }
            },
            None => {},
        }
        i += 1;
    }
    let mut k: usize = 0;
    while k < 3
        invariant
            k <= 3,
            text@ == prepared(input@),
            first_offset_instant(text@, 0) is None,
            first_plain_instant(text@, 0) == first_plain_instant(text@, k as int),
        decreases 3 - k,
    {
        match read_plain(text, UTC_IMPLIED[k]) {
            Some(reading) => {
                match accept_plain_reading(&reading) {
                    Some(n) => {
                        return Time::from_unix_nanos(n);
                    },
                    None => {},
                }
            },
            None => {},
        }
        k += 1;
    }
    None
}

} // verus!
