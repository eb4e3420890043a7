//! What holds of reading and rendering together.
//!
//! The canonical text of an instant, and what the grammars read from a text,
//! are the work of the date and time libraries underneath and are only named
//! here. So a law that needs the grammar to read a canonical text back says so
//! in its `requires`.

use vstd::prelude::*;
use crate::entry::consumed;
use crate::error::TimeError;
use crate::lenient::lenient_reading;
use crate::strict::strict_reading;
use crate::value::{iso8601_text, representable};

verus! {

/// The strict stage decides wherever it reads an instant: the lenient stage
/// is not asked, and the instant is the answer if a time value can hold it.
pub proof fn lemma_strict_decides(text: Seq<char>, instant: int)
    requires
        strict_reading(text) matches Ok(n) && n == instant,
    ensures
        representable(instant) ==> (consumed(text) matches Ok(n) && n == instant),
        !representable(instant) ==> (consumed(text) matches Err(e) && e == TimeError::OutOfRange),
{
}

/// The lenient stage only widens what is accepted. Where the strict stage
/// objects, the answer is the lenient stage's instant, and where there is none,
/// the error is the strict stage's objection, never one of the lenient stage's
/// own.
pub proof fn lemma_lenient_only_widens(text: Seq<char>)
    requires
        strict_reading(text) is Err,
    ensures
        lenient_reading(text) matches Some(n) ==> (consumed(text) matches Ok(m) && m == n),
        lenient_reading(text) is None ==> (consumed(text) matches Err(e) && e
            == TimeError::TimeFormat(strict_reading(text)->Err_0)),
{
}

/// Every instant that comes out of reading a text is one that a time value
/// can hold.
pub proof fn lemma_consumed_is_representable(text: Seq<char>)
    ensures
        consumed(text) matches Ok(n) ==> representable(n),
{
}

/// Reading never fails for want of a canonical text: the only errors are the
/// strict stage's objection and an instant out of range.
pub proof fn lemma_consumed_errors(text: Seq<char>)
    ensures
        consumed(text) matches Err(e) ==> e != TimeError::Rendering,
{
}

/// Two texts in which the strict stage reads the same instant give the same
/// time value, whatever offsets they are written with.
pub proof fn lemma_same_instant_same_value(a: Seq<char>, b: Seq<char>)
    requires
        strict_reading(a) is Ok,
        strict_reading(a) == strict_reading(b),
    ensures
        consumed(a) == consumed(b),
{
}

/// Round trip, as far as it is this library's: where the strict stage reads
/// the canonical text of an instant as that instant, reading the text gives the
/// instant back.
pub proof fn lemma_canonical_text_reads_back(instant: int, text: Seq<char>)
    requires
        representable(instant),
        iso8601_text(instant) == Some(text),
        strict_reading(text) matches Ok(n) && n == instant,
    ensures
        consumed(text) matches Ok(n) && n == instant,
{
}

/// Reading, rendering and reading again, as far as it is this library's: where
/// a text reads as an instant, and the strict stage reads the canonical text of
/// that instant as the same instant, the second reading equals the first.
pub proof fn lemma_second_reading_equals_first(first: Seq<char>, second: Seq<char>)
    requires
        consumed(first) matches Ok(n) && iso8601_text(n) == Some(second) && (strict_reading(
            second,
        ) matches Ok(m) && m == n),
    ensures
        consumed(second) == consumed(first),
{
}

} // verus!
