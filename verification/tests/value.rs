//! The time value and its canonical text.

use time::OffsetDateTime;
use xsd_time::value::{MAX_UNIX_NANOS, MIN_UNIX_NANOS, NANOS_PER_SECOND, YEAR_ZERO_UNIX_NANOS};
use xsd_time::{consume, Time, TimeError};

fn at(nanos: i128) -> Time {
    Time::from_unix_nanos(nanos).expect("an instant in range")
}

#[test]
fn a_time_holds_the_years_that_the_calendar_library_holds() {
    assert!(OffsetDateTime::from_unix_timestamp_nanos(MIN_UNIX_NANOS).is_ok());
    assert!(OffsetDateTime::from_unix_timestamp_nanos(MIN_UNIX_NANOS - 1).is_err());
    assert!(OffsetDateTime::from_unix_timestamp_nanos(MAX_UNIX_NANOS).is_ok());
    assert!(OffsetDateTime::from_unix_timestamp_nanos(MAX_UNIX_NANOS + 1).is_err());
}

#[test]
fn range_ends_are_the_first_and_last_nanosecond() {
    let first = OffsetDateTime::from_unix_timestamp_nanos(MIN_UNIX_NANOS).unwrap();
    assert_eq!((first.year(), first.ordinal(), first.hour(), first.nanosecond()), (-9999, 1, 0, 0));
    let last = OffsetDateTime::from_unix_timestamp_nanos(MAX_UNIX_NANOS).unwrap();
    assert_eq!(
        (last.year(), last.ordinal(), last.hour(), last.minute(), last.second(), last.nanosecond()),
        (9999, 365, 23, 59, 59, 999_999_999)
    );
    let zero = OffsetDateTime::from_unix_timestamp_nanos(YEAR_ZERO_UNIX_NANOS).unwrap();
    assert_eq!((zero.year(), zero.ordinal(), zero.hour(), zero.nanosecond()), (0, 1, 0, 0));
}

#[test]
fn from_unix_nanos_checks_the_range() {
    assert_eq!(Time::from_unix_nanos(0).map(|t| t.unix_nanos()), Some(0));
    assert_eq!(Time::from_unix_nanos(-1).map(|t| t.unix_nanos()), Some(-1));
    assert_eq!(Time::from_unix_nanos(MIN_UNIX_NANOS).map(|t| t.unix_nanos()), Some(MIN_UNIX_NANOS));
    assert_eq!(Time::from_unix_nanos(MAX_UNIX_NANOS).map(|t| t.unix_nanos()), Some(MAX_UNIX_NANOS));
    assert_eq!(Time::from_unix_nanos(MIN_UNIX_NANOS - 1), None);
    assert_eq!(Time::from_unix_nanos(MAX_UNIX_NANOS + 1), None);
    assert_eq!(Time::from_unix_nanos(i128::MAX), None);
    assert_eq!(Time::from_unix_nanos(i128::MIN), None);
}

#[test]
fn values_are_ordered_by_instant() {
    let early = consume("2001-10-26T21:32:52+02:00").unwrap();
    let late = consume("2001-10-26T21:32:52-02:00").unwrap();
    assert!(early < late);
    assert!(at(-1) < at(0));
    assert!(at(0) < at(1));
    assert_eq!(at(5).max(at(3)), at(5));
}

#[test]
fn format_writes_extended_iso_8601_with_z() {
    assert_eq!(at(0).format(), Ok("1970-01-01T00:00:00.000000000Z".to_string()));
    assert_eq!(
        at(1_004_124_772 * NANOS_PER_SECOND).format(),
        Ok("2001-10-26T19:32:52.000000000Z".to_string())
    );
    assert_eq!(
        at(1_004_131_972 * NANOS_PER_SECOND + 126_790_000).format(),
        Ok("2001-10-26T21:32:52.126790000Z".to_string())
    );
    assert_eq!(at(-1).format(), Ok("1969-12-31T23:59:59.999999999Z".to_string()));
}

#[test]
fn format_moves_the_offset_to_utc() {
    let t = consume("1996-12-19T16:39:57-08:00").unwrap();
    assert_eq!(t.format(), Ok("1996-12-20T00:39:57.000000000Z".to_string()));
}

#[test]
fn format_covers_the_years_zero_to_9999() {
    assert_eq!(
        at(YEAR_ZERO_UNIX_NANOS).format(),
        Ok("0000-01-01T00:00:00.000000000Z".to_string())
    );
    assert_eq!(at(MAX_UNIX_NANOS).format(), Ok("9999-12-31T23:59:59.999999999Z".to_string()));
}

#[test]
fn format_fails_before_the_year_zero() {
    assert_eq!(at(YEAR_ZERO_UNIX_NANOS - 1).format(), Err(TimeError::Rendering));
    assert_eq!(at(MIN_UNIX_NANOS).format(), Err(TimeError::Rendering));
    let t = consume("0000-01-01T00:00:00+01:00").unwrap();
    assert_eq!(t.format(), Err(TimeError::Rendering));
}

#[test]
fn canonical_text_reads_back_as_the_same_value() {
    for nanos in [
        0,
        1,
        -1,
        999_999_999,
        1_004_124_772 * NANOS_PER_SECOND,
        1_004_131_972 * NANOS_PER_SECOND + 126_790_000,
        1_633_859_720 * NANOS_PER_SECOND + 952_000_000,
        1_633_859_720 * NANOS_PER_SECOND + 123_456_789,
        YEAR_ZERO_UNIX_NANOS,
        MAX_UNIX_NANOS,
    ] {
        let t = at(nanos);
        let text = t.format().unwrap();
        assert_eq!(xsd_time::strict::parse_strict(&text), Ok(nanos), "{text}");
        assert_eq!(consume(&text), Ok(t), "{text}");
    }
}

#[test]
fn reading_twice_gives_the_first_reading() {
    for text in [
        "1996-12-19T16:39:57-08:00",
        "2001-10-26T21:32:52",
        "2001-10-26T21:32:52.12679",
        "2001-10-26T21:32",
        "2025-07-02 18:07:28 +0000",
        "2025/07/02 18:07:28",
        "2021-10-10T09:55:20.952",
    ] {
        let first = consume(text).unwrap();
        let second = consume(&first.format().unwrap()).unwrap();
        assert_eq!(first, second, "{text}");
    }
}

#[test]
fn canonical_text_reads_back_across_the_range() {
    let span: u128 = (MAX_UNIX_NANOS - YEAR_ZERO_UNIX_NANOS) as u128 + 1;
    let mut state: u128 = 0x2545_F491_4F6C_DD1D_9E37_79B9_7F4A_7C15;
    for _ in 0..20_000 {
        state = state
            .wrapping_mul(0x5851_F42D_4C95_7F2D_1405_7B7E_F767_814F)
            .wrapping_add(0x1405_7B7E_F767_814F);
        let nanos = YEAR_ZERO_UNIX_NANOS + ((state >> 7) % span) as i128;
        let t = at(nanos);
        let text = t.format().unwrap();
        assert_eq!(text.len(), 30, "{text}");
        assert_eq!(consume(&text), Ok(t), "{text}");
    }
}
