//! The decisions of the stages, on readings written out by hand.

use xsd_time::entry::resolve;
use xsd_time::lenient::{
    accept_offset_reading, accept_plain_reading, OffsetReading, PlainReading, OFFSET_BEARING,
    UTC_IMPLIED,
};
use xsd_time::value::{MAX_UNIX_NANOS, MIN_UNIX_NANOS};
use xsd_time::{ParseFailure, Time, TimeError};

#[test]
fn reading_with_an_offset_counts_from_the_year_one() {
    let reading = OffsetReading { year: 1, unix_nanos: Some(-42) };
    assert_eq!(accept_offset_reading(&reading), Some(-42));
    let reading = OffsetReading { year: 2025, unix_nanos: Some(1_751_479_648_000_000_000) };
    assert_eq!(accept_offset_reading(&reading), Some(1_751_479_648_000_000_000));
    let reading = OffsetReading { year: 0, unix_nanos: Some(7) };
    assert_eq!(accept_offset_reading(&reading), None);
    let reading = OffsetReading { year: -2001, unix_nanos: Some(7) };
    assert_eq!(accept_offset_reading(&reading), None);
}

#[test]
fn reading_with_an_offset_needs_its_instant() {
    let reading = OffsetReading { year: 2500, unix_nanos: None };
    assert_eq!(accept_offset_reading(&reading), None);
    let reading = OffsetReading { year: 2262, unix_nanos: Some(i64::MAX) };
    assert_eq!(accept_offset_reading(&reading), Some(9_223_372_036_854_775_807));
}

#[test]
fn reading_without_an_offset_stands_at_utc() {
    let reading = PlainReading { year: 2021, unix_seconds: 1_633_859_720, subsec_nanos: 952_000_000 };
    assert_eq!(accept_plain_reading(&reading), Some(1_633_859_720_952_000_000));
    let reading = PlainReading { year: 1969, unix_seconds: -1, subsec_nanos: 1 };
    assert_eq!(accept_plain_reading(&reading), Some(-999_999_999));
    // a leap second is counted on
    let reading = PlainReading { year: 2016, unix_seconds: 1_483_228_799, subsec_nanos: 1_000_000_000 };
    assert_eq!(accept_plain_reading(&reading), Some(1_483_228_800_000_000_000));
    let reading = PlainReading { year: 262_000, unix_seconds: i64::MAX, subsec_nanos: u32::MAX };
    assert_eq!(
        accept_plain_reading(&reading),
        Some(9_223_372_036_854_775_807 * 1_000_000_000 + 4_294_967_295)
    );
}

#[test]
fn reading_without_an_offset_counts_from_the_year_one() {
    let reading = PlainReading { year: 0, unix_seconds: 5, subsec_nanos: 0 };
    assert_eq!(accept_plain_reading(&reading), None);
    let reading = PlainReading { year: -1, unix_seconds: 5, subsec_nanos: 0 };
    assert_eq!(accept_plain_reading(&reading), None);
    let reading = PlainReading { year: 1, unix_seconds: 5, subsec_nanos: 0 };
    assert_eq!(accept_plain_reading(&reading), Some(5_000_000_000));
}

#[test]
fn strict_instant_is_the_answer() {
    let other = Time::from_unix_nanos(99);
    assert_eq!(resolve(Ok(7), None).map(|t| t.unix_nanos()), Ok(7));
    assert_eq!(resolve(Ok(7), other).map(|t| t.unix_nanos()), Ok(7));
    assert_eq!(resolve(Ok(MIN_UNIX_NANOS), None).map(|t| t.unix_nanos()), Ok(MIN_UNIX_NANOS));
    assert_eq!(resolve(Ok(MAX_UNIX_NANOS), None).map(|t| t.unix_nanos()), Ok(MAX_UNIX_NANOS));
}

#[test]
fn strict_instant_out_of_range_is_an_error() {
    let other = Time::from_unix_nanos(99);
    assert_eq!(resolve(Ok(MAX_UNIX_NANOS + 1), None), Err(TimeError::OutOfRange));
    assert_eq!(resolve(Ok(MIN_UNIX_NANOS - 1), other), Err(TimeError::OutOfRange));
}

#[test]
fn lenient_instant_answers_a_strict_objection() {
    let found = Time::from_unix_nanos(99);
    assert_eq!(resolve(Err(ParseFailure::InvalidLiteral), found), Ok(found.unwrap()));
}

#[test]
fn strict_objection_is_the_error() {
    for failure in [
        ParseFailure::InvalidLiteral,
        ParseFailure::InvalidComponent("hour"),
        ParseFailure::UnexpectedTrailingCharacters,
        ParseFailure::InsufficientInformation,
        ParseFailure::ComponentRange("day"),
        ParseFailure::Other,
    ] {
        assert_eq!(resolve(Err(failure), None), Err(TimeError::TimeFormat(failure)));
    }
}

#[test]
fn patterns_are_tried_in_this_order() {
    assert_eq!(
        OFFSET_BEARING,
        ["%Y-%m-%d %H:%M:%S %z", "%Y-%m-%dT%H:%M:%S%.f%z", "%Y-%m-%dT%H:%M:%S%z"]
    );
    assert_eq!(UTC_IMPLIED, ["%Y-%m-%d %H:%M:%S", "%Y-%m-%dT%H:%M:%S%.f", "%Y-%m-%dT%H:%M:%S"]);
}
