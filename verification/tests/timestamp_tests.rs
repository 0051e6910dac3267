use async_rust_tui::error::SncfAPIError;
use async_rust_tui::timestamp::{
    duration_between, format_clock, format_date, parse_provider_timestamp,
};

#[test]
fn parse_is_pure_and_idempotent() {
    let first = parse_provider_timestamp("20260103T062100").unwrap();
    let second = parse_provider_timestamp("20260103T062100").unwrap();
    assert_eq!(first, second);
    assert_eq!(first.epoch, second.epoch);
}

#[test]
fn parse_gives_the_expected_instant() {
    // 2026-01-03 06:21:00 in winter, UTC+1, so 05:21:00 UTC.
    let t = parse_provider_timestamp("20260103T062100").unwrap();
    assert_eq!(t.year, 2026);
    assert_eq!(t.month, 1);
    assert_eq!(t.day, 3);
    assert_eq!(t.hour, 6);
    assert_eq!(t.minute, 21);
    assert_eq!(t.second, 0);
    assert_eq!(t.epoch, 1767417660);
}

#[test]
fn parse_gives_the_expected_instant_in_summer() {
    // 2026-07-15 12:00:00 in summer, UTC+2, so 10:00:00 UTC.
    let t = parse_provider_timestamp("20260715T120000").unwrap();
    assert_eq!(t.epoch, 1784109600);
}

#[test]
fn duration_and_renderings_of_the_fixture_pair() {
    let departure = parse_provider_timestamp("20260103T062100").unwrap();
    let arrival = parse_provider_timestamp("20260103T064900").unwrap();
    assert_eq!(duration_between(departure.epoch, arrival.epoch).unwrap(), 1680);
    assert_eq!(format_clock(&departure), "06:21");
    assert_eq!(format_clock(&arrival), "06:49");
    assert_eq!(format_date(&departure), "2026-01-03");
}

#[test]
fn duration_across_the_spring_change_loses_an_hour() {
    // The last Sunday of March 2026 is the 29th: one wall-clock day
    // across the change is 23 hours.
    let departure = parse_provider_timestamp("20260328T120000").unwrap();
    let arrival = parse_provider_timestamp("20260329T120000").unwrap();
    assert_eq!(duration_between(departure.epoch, arrival.epoch).unwrap(), 23 * 3600);
}

#[test]
fn parse_ignores_the_separator_and_any_tail() {
    let plain = parse_provider_timestamp("20260103T062100").unwrap();
    let other_sep = parse_provider_timestamp("20260103X062100").unwrap();
    let with_tail = parse_provider_timestamp("20260103T062100 and more").unwrap();
    assert_eq!(plain, other_sep);
    assert_eq!(plain, with_tail);
}

#[test]
fn parse_rejects_a_short_input() {
    let err = parse_provider_timestamp("20260103T0621").unwrap_err();
    assert!(matches!(err, SncfAPIError::DateParseError(_)));
    assert_eq!(err.message(), "Date cannot be parsed: 20260103T0621");
}

#[test]
fn parse_rejects_the_invalid_fixture_date() {
    let err = parse_provider_timestamp("I'm invalid").unwrap_err();
    assert_eq!(err.message(), "Date cannot be parsed: I'm invalid");
}

#[test]
fn parse_rejects_out_of_range_fields() {
    assert!(parse_provider_timestamp("20260003T062100").is_err());
    assert!(parse_provider_timestamp("20261303T062100").is_err());
    assert!(parse_provider_timestamp("20260100T062100").is_err());
    assert!(parse_provider_timestamp("20260132T062100").is_err());
    assert!(parse_provider_timestamp("20260103T242100").is_err());
    assert!(parse_provider_timestamp("20260103T066000").is_err());
    assert!(parse_provider_timestamp("20260103T062160").is_err());
}

#[test]
fn parse_respects_leap_years() {
    assert!(parse_provider_timestamp("20240229T000000").is_ok());
    assert!(parse_provider_timestamp("20230229T000000").is_err());
    assert!(parse_provider_timestamp("20000229T000000").is_ok());
    assert!(parse_provider_timestamp("21000229T000000").is_err());
}

#[test]
fn duration_fails_where_the_span_is_unrepresentable() {
    let err = duration_between(i64::MIN, i64::MAX).unwrap_err();
    assert!(matches!(err, SncfAPIError::DurationError));
    assert_eq!(err.message(), "Duration cannot be represented");
    assert_eq!(duration_between(i64::MAX, i64::MIN).unwrap_err().message(),
        "Duration cannot be represented");
}
