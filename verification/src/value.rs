//! The time value: an instant on the UTC timeline, and its canonical text.

use vstd::prelude::*;
use time::format_description::well_known::Iso8601;
use crate::error::TimeError;

verus! {

/// Nanoseconds in a second.
pub const NANOS_PER_SECOND: i128 = 1_000_000_000;

/// The first instant a [`Time`] can hold: midnight of 1 January of the year
/// -9999 at UTC, in nanoseconds since the Unix epoch.
pub const MIN_UNIX_NANOS: i128 = -377_705_116_800_000_000_000;

/// The last instant a [`Time`] can hold: the last nanosecond of 31 December
/// 9999 at UTC, in nanoseconds since the Unix epoch.
pub const MAX_UNIX_NANOS: i128 = 253_402_300_799_999_999_999;

/// Midnight of 1 January of the year 0 at UTC, in nanoseconds since the Unix
/// epoch. The canonical text has four digits for the year and no sign, so no
/// earlier instant has one.
pub const YEAR_ZERO_UNIX_NANOS: i128 = -62_167_219_200_000_000_000;

/// Whether a [`Time`] can hold the instant `nanos` nanoseconds after the Unix
/// epoch: whether it lies in the years -9999 to 9999 at UTC.
pub open spec fn representable(nanos: int) -> bool {
    MIN_UNIX_NANOS <= nanos <= MAX_UNIX_NANOS
}

/// Whether the instant `nanos` nanoseconds after the Unix epoch lies in the
/// years 0 to 9999 at UTC, which are those that the canonical text can write.
pub open spec fn writable(nanos: int) -> bool {
    YEAR_ZERO_UNIX_NANOS <= nanos <= MAX_UNIX_NANOS
}

/// The canonical text of the instant `nanos` nanoseconds after the Unix epoch:
/// extended ISO 8601 with date, time to the nanosecond and the offset `Z`, as
/// in `2001-10-26T19:32:52.000000000Z`. `None` where the instant has none.
pub uninterp spec fn iso8601_text(nanos: int) -> Option<Seq<char>>;

/// A point in time. No offset is stored: every value is an instant at UTC, and
/// two values are equal, and ordered, as their instants are.
#[derive(Debug, Clone, Copy, PartialEq, Eq, Structural, PartialOrd, Ord, Hash)]
pub struct Time {
    nanos: i128,
}

impl View for Time {
    type V = int;

    /// The instant, in nanoseconds since the Unix epoch.
    closed spec fn view(&self) -> int {
        self.nanos as int
    }
}

/// `time::OffsetDateTime::from_unix_timestamp_nanos`, then `format` with
/// `Iso8601::DEFAULT`. The text is named, not described. It is there exactly
/// for the years 0 to 9999 at UTC: the first call fails outside the years -9999
/// to 9999, the second where the year does not fit four digits without a sign.
#[verifier::external_body]
fn render_iso8601(nanos: i128) -> (r: Option<String>)
    ensures
        r matches Some(text) ==> iso8601_text(nanos as int) == Some(text@),
        r is None ==> iso8601_text(nanos as int) is None,
        r is Some <==> writable(nanos as int),
{
    match time::OffsetDateTime::from_unix_timestamp_nanos(nanos) {
        Ok(t) => t.format(&Iso8601::DEFAULT).ok(),
        Err(_) => None,
    }
}

impl Time {
    #[verifier::type_invariant]
    spec fn in_range(self) -> bool {
        representable(self.nanos as int)
    }

    /// The value for the instant `nanos` nanoseconds after the Unix epoch, if
    /// a `Time` can hold it.
    pub fn from_unix_nanos(nanos: i128) -> (r: Option<Time>)
        ensures
            r is Some <==> representable(nanos as int),
            r matches Some(t) ==> t@ == nanos,
    {
        if MIN_UNIX_NANOS <= nanos && nanos <= MAX_UNIX_NANOS {
            Some(Time { nanos })
        } else {
            None
        }
    }

    /// The instant in nanoseconds since the Unix epoch.
    pub fn unix_nanos(&self) -> (n: i128)
        ensures
            n == self@,
            representable(n as int),
    {
        proof {
            use_type_invariant(self);
        }
        self.nanos
    }

    /// The canonical text of the instant: extended ISO 8601 with the offset
    /// `Z`. An instant before the year 0 has none; for it the outcome is
    /// [`TimeError::Rendering`].
    pub fn format(&self) -> (r: Result<String, TimeError>)
        ensures
            r is Ok <==> writable(self@),
            r matches Ok(text) ==> iso8601_text(self@) == Some(text@),
            r matches Err(e) ==> e == TimeError::Rendering && iso8601_text(self@) is None,
    {
        match render_iso8601(self.nanos) {
            Some(text) => Ok(text),
            None => Err(TimeError::Rendering),
        }
    }
}

/// Two values with the same instant are the same value.
pub proof fn lemma_equal_instants(a: Time, b: Time)
    requires
        a@ == b@,
    ensures
        a == b,
{
}

} // verus!
