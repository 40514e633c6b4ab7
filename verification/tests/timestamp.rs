use dhl_tracking::error::ClientError;
use dhl_tracking::timestamp::Timestamp;

fn ts(year: u16, month: u8, day: u8, hour: u8, minute: u8, second: u8) -> Timestamp {
    Timestamp {
        year,
        month,
        day,
        hour,
        minute,
        second,
    }
}

#[test]
fn parses_a_date_to_one_second_past_midnight() {
    // The 00:00:01 time of day is the library's own convention for bare
    // dates.
    let t = Timestamp::parse_date("2021-06-15").unwrap();
    assert_eq!(t, ts(2021, 6, 15, 0, 0, 1));
}

#[test]
fn parses_a_full_datetime_as_utc() {
    let t = Timestamp::parse_datetime("2021-06-15T10:30:00").unwrap();
    assert_eq!(t, ts(2021, 6, 15, 10, 30, 0));
}

#[test]
fn datetime_bounds_are_enforced() {
    assert!(Timestamp::parse_datetime("2021-06-15T23:59:59").is_ok());
    assert!(Timestamp::parse_datetime("2021-06-15T24:00:00").is_err());
    assert!(Timestamp::parse_datetime("2021-06-15T10:60:00").is_err());
    assert!(Timestamp::parse_datetime("2021-06-15T10:30:60").is_err());
    assert!(Timestamp::parse_datetime("2021-13-01T00:00:00").is_err());
    assert!(Timestamp::parse_datetime("2021-00-10T00:00:00").is_err());
    assert!(Timestamp::parse_datetime("2021-06-00T00:00:00").is_err());
}

#[test]
fn month_lengths_are_enforced() {
    assert!(Timestamp::parse_date("2021-04-30").is_ok());
    assert!(Timestamp::parse_date("2021-04-31").is_err());
    assert!(Timestamp::parse_date("2021-06-31").is_err());
    assert!(Timestamp::parse_date("2021-12-31").is_ok());
}

#[test]
fn leap_years_are_enforced() {
    assert!(Timestamp::parse_date("2020-02-29").is_ok());
    assert!(Timestamp::parse_date("2021-02-29").is_err());
    assert!(Timestamp::parse_date("2000-02-29").is_ok());
    assert!(Timestamp::parse_date("1900-02-29").is_err());
    assert!(Timestamp::parse_datetime("2024-02-29T00:00:00").is_ok());
}

#[test]
fn parsed_values_are_chronologically_comparable() {
    let date = Timestamp::parse_date("2021-06-15").unwrap();
    let midnight = Timestamp::parse_datetime("2021-06-15T00:00:00").unwrap();
    let later = Timestamp::parse_datetime("2021-06-15T10:30:00").unwrap();
    // The one-second offset puts a bare date strictly after its midnight.
    assert!(midnight.precedes(&date));
    assert!(date.precedes(&later));
    assert!(!later.precedes(&later));
    let next_year = Timestamp::parse_date("2022-01-01").unwrap();
    assert!(later.precedes(&next_year));
}

#[test]
fn malformed_dates_are_errors_with_context() {
    match Timestamp::parse_date("15.06.2021") {
        Err(ClientError::DeserializationError(m)) => assert_eq!(m, "Could not parse date"),
        _ => panic!("expected a deserialization error"),
    }
    assert!(Timestamp::parse_date("2021-6-15").is_err());
    assert!(Timestamp::parse_date("2021-06-15 ").is_err());
    assert!(Timestamp::parse_date("").is_err());
    assert!(Timestamp::parse_datetime("2021-06-15 10:30:00").is_err());
    assert!(Timestamp::parse_datetime("2021-06-15T10:30").is_err());
    assert!(Timestamp::parse_datetime("2021-06-15T10:30:0x").is_err());
}
