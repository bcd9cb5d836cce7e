use binance_api::errors::ApiError;
use binance_api::numfmt::{i64_to_string, u64_to_string};
use binance_api::utctime::parse_utc_datetime;

#[test]
fn u64_decimal_text() {
    assert_eq!(u64_to_string(0), "0");
    assert_eq!(u64_to_string(7), "7");
    assert_eq!(u64_to_string(1704067200000), "1704067200000");
    assert_eq!(u64_to_string(u64::MAX), "18446744073709551615");
}

#[test]
fn i64_decimal_text() {
    assert_eq!(i64_to_string(0), "0");
    assert_eq!(i64_to_string(-1), "-1");
    assert_eq!(i64_to_string(i64::MAX), "9223372036854775807");
    assert_eq!(i64_to_string(i64::MIN), "-9223372036854775808");
}

#[test]
fn epoch_of_unix_origin() {
    let t = parse_utc_datetime("1970-01-01 00:00:00").unwrap();
    assert_eq!(t.timestamp(), 0);
}

#[test]
fn epoch_of_known_instants() {
    let t = parse_utc_datetime("2024-01-01 00:00:00").unwrap();
    assert_eq!(t.timestamp(), 1704067200);
    assert_eq!(t.timestamp_millis(), 1704067200000);
    let leap = parse_utc_datetime("2000-02-29 12:30:45").unwrap();
    assert_eq!(leap.timestamp(), 951827445);
    let before_epoch = parse_utc_datetime("1969-12-31 23:59:59").unwrap();
    assert_eq!(before_epoch.timestamp(), -1);
}

#[test]
fn epoch_of_extreme_years() {
    let first = parse_utc_datetime("0000-01-01 00:00:00").unwrap();
    assert_eq!(first.timestamp(), -62167219200);
    let last = parse_utc_datetime("9999-12-31 23:59:59").unwrap();
    assert_eq!(last.timestamp(), 253402300799);
}

#[test]
fn parse_reads_the_fields() {
    let t = parse_utc_datetime("2024-06-05 07:08:09").unwrap();
    assert_eq!(
        (t.year, t.month, t.day, t.hour, t.minute, t.second),
        (2024, 6, 5, 7, 8, 9)
    );
}

#[test]
fn parse_rejects_bad_shapes() {
    for s in [
        "",
        "2024-1-1 00:00:00",
        "2024-01-01T00:00:00",
        "2024-01-01 00:00:00Z",
        "2024:01:01 00:00:00",
        "yyyy-mm-dd hh:mm:ss",
    ] {
        assert!(matches!(parse_utc_datetime(s), Err(ApiError::InvalidTime)), "{s}");
    }
}

#[test]
fn parse_rejects_impossible_instants() {
    for s in [
        "2023-02-29 00:00:00",
        "2024-13-01 00:00:00",
        "2024-00-10 00:00:00",
        "2024-04-31 00:00:00",
        "2024-04-00 00:00:00",
        "2024-01-01 24:00:00",
        "2024-01-01 00:60:00",
        "2024-01-01 00:00:60",
    ] {
        assert!(matches!(parse_utc_datetime(s), Err(ApiError::InvalidTime)), "{s}");
    }
}

#[test]
fn parse_accepts_leap_day_of_leap_years() {
    assert!(parse_utc_datetime("2024-02-29 00:00:00").is_ok());
    assert!(parse_utc_datetime("2000-02-29 00:00:00").is_ok());
    assert!(matches!(
        parse_utc_datetime("1900-02-29 00:00:00"),
        Err(ApiError::InvalidTime)
    ));
}
