use indicator_sync::batch::Target;
use indicator_sync::staleness::{
    get_stale_indicators, is_stale, parse_integer, parse_refresh_interval, IndicatorRow,
    CALENDAR_FIRST_SECOND, CALENDAR_LAST_SECOND, DEFAULT_REFRESH_MINUTES,
};
use indicator_sync::timeseries::Timestamp;

const NOW: i64 = 1_700_000_000;

fn at(secs: i64) -> Timestamp {
    Timestamp { secs, nanos: 0 }
}

fn row(slug: &str, source: &str, last: Option<i64>, interval: &str) -> IndicatorRow {
    IndicatorRow {
        slug: Some(slug.to_string()),
        source: Some(source.to_string()),
        last_updated_at: last.map(at),
        refresh_interval: Some(interval.to_string()),
    }
}

#[test]
fn staleness_boundary_at_sixty_minutes() {
    assert!(is_stale(at(NOW), Some(at(NOW - 61 * 60)), 60));
    assert!(!is_stale(at(NOW), Some(at(NOW - 59 * 60)), 60));
    assert!(is_stale(at(NOW), Some(at(NOW - 60 * 60)), 60));
    assert!(!is_stale(at(NOW), Some(at(NOW - 60 * 60 + 1)), 60));
    assert!(is_stale(at(NOW), None, 60));
    assert!(is_stale(at(NOW), None, i64::MAX));
}

#[test]
fn elapsed_time_counts_whole_minutes() {
    let now = Timestamp { secs: NOW, nanos: 0 };
    let almost = Timestamp { secs: NOW - 3600, nanos: 1 };
    assert!(!is_stale(now, Some(almost), 60));
    assert!(is_stale(now, Some(almost), 59));
    let exact = Timestamp { secs: NOW - 3600, nanos: 0 };
    assert!(is_stale(now, Some(exact), 60));
    let later = Timestamp { secs: NOW, nanos: 999_999_999 };
    assert!(is_stale(later, Some(almost), 60));
}

#[test]
fn update_in_the_future_is_stale_only_for_an_interval_of_nothing() {
    assert!(!is_stale(at(NOW), Some(at(NOW + 30)), 1));
    assert!(is_stale(at(NOW), Some(at(NOW + 30)), 0));
    assert!(!is_stale(at(NOW), Some(at(NOW + 120)), 0));
    assert!(is_stale(at(NOW), Some(at(NOW + 119)), -1));
    assert!(!is_stale(at(NOW), Some(at(NOW + 121)), -1));
}

#[test]
fn refresh_interval_is_parsed_or_defaults_to_a_day() {
    assert_eq!(DEFAULT_REFRESH_MINUTES, 1440);
    assert_eq!(parse_refresh_interval("60m"), 60);
    assert_eq!(parse_refresh_interval("1440m"), 1440);
    assert_eq!(parse_refresh_interval("15"), 15);
    assert_eq!(parse_refresh_interval("30mm"), 30);
    assert_eq!(parse_refresh_interval("+5m"), 5);
    assert_eq!(parse_refresh_interval("-5m"), -5);
    assert_eq!(parse_refresh_interval("007m"), 7);
    assert_eq!(parse_refresh_interval("0m"), 0);
    assert_eq!(parse_refresh_interval("-0"), 0);
    assert_eq!(parse_refresh_interval(""), 1440);
    assert_eq!(parse_refresh_interval("m"), 1440);
    assert_eq!(parse_refresh_interval("+"), 1440);
    assert_eq!(parse_refresh_interval("-m"), 1440);
    assert_eq!(parse_refresh_interval("1h"), 1440);
    assert_eq!(parse_refresh_interval("60 m"), 1440);
    assert_eq!(parse_refresh_interval(" 60m"), 1440);
    assert_eq!(parse_refresh_interval("6m0m"), 1440);
    assert_eq!(parse_refresh_interval("1.5m"), 1440);
    assert_eq!(parse_refresh_interval("+-5m"), 1440);
    assert_eq!(parse_refresh_interval("６０m"), 1440);
    assert_eq!(parse_refresh_interval("9223372036854775807m"), i64::MAX);
    assert_eq!(parse_refresh_interval("9223372036854775808m"), 1440);
    assert_eq!(parse_refresh_interval("-9223372036854775808m"), i64::MIN);
    assert_eq!(parse_refresh_interval("-9223372036854775809m"), 1440);
    assert_eq!(parse_refresh_interval("99999999999999999999999m"), 1440);
}

#[test]
fn stale_set_keeps_row_order_and_providers() {
    let rows = vec![
        row("fresh", "FRED", Some(NOW - 59 * 60), "60m"),
        row("due", "Tiingo", Some(NOW - 61 * 60), "60m"),
        row("never", "Binance", None, "60m"),
        row("daily_fresh", "FRED", Some(NOW - 61 * 60), "1440m"),
        row("daily_due", "FRED", Some(NOW - 1440 * 60), "1440m"),
        row("unparsable", "FRED", Some(NOW - 1000 * 60), "soon"),
        row("unparsable_due", "FRED", Some(NOW - 1441 * 60), "soon"),
    ];
    let stale = get_stale_indicators(&rows, at(NOW));
    assert_eq!(
        stale,
        vec![
            Target { slug: "due".to_string(), provider: "Tiingo".to_string() },
            Target { slug: "never".to_string(), provider: "Binance".to_string() },
            Target { slug: "daily_due".to_string(), provider: "FRED".to_string() },
            Target { slug: "unparsable_due".to_string(), provider: "FRED".to_string() },
        ]
    );
}

#[test]
fn unreadable_columns_take_their_defaults() {
    let rows = vec![
        IndicatorRow { slug: None, source: None, last_updated_at: None, refresh_interval: None },
        IndicatorRow {
            slug: Some("x".to_string()),
            source: None,
            last_updated_at: Some(at(NOW - 1439 * 60)),
            refresh_interval: None,
        },
        IndicatorRow {
            slug: Some("y".to_string()),
            source: None,
            last_updated_at: Some(at(NOW - 1440 * 60)),
            refresh_interval: None,
        },
    ];
    let stale = get_stale_indicators(&rows, at(NOW));
    assert_eq!(
        stale,
        vec![
            Target { slug: String::new(), provider: "FRED".to_string() },
            Target { slug: "y".to_string(), provider: "FRED".to_string() },
        ]
    );
    assert!(get_stale_indicators(&Vec::new(), at(NOW)).is_empty());
}

#[test]
fn representable_instants() {
    assert_eq!(CALENDAR_FIRST_SECOND, -8_334_601_228_800);
    assert_eq!(CALENDAR_LAST_SECOND, 8_210_266_876_799);
    assert!(at(0).is_representable());
    assert!(at(NOW).is_representable());
    assert!(at(CALENDAR_LAST_SECOND).is_representable());
    assert!(at(CALENDAR_FIRST_SECOND).is_representable());
    assert!(!at(CALENDAR_LAST_SECOND + 1).is_representable());
    assert!(!at(CALENDAR_FIRST_SECOND - 1).is_representable());
    assert!(!at(i64::MIN).is_representable());
    assert!(Timestamp { secs: 0, nanos: 999_999_999 }.is_representable());
    assert!(!Timestamp { secs: 0, nanos: 1_000_000_000 }.is_representable());
}

#[test]
fn representable_instants_are_those_of_the_calendar() {
    let first = chrono::DateTime::from_timestamp(CALENDAR_FIRST_SECOND, 0).unwrap();
    let last = chrono::DateTime::from_timestamp(CALENDAR_LAST_SECOND, 999_999_999).unwrap();
    assert_eq!(first, chrono::DateTime::<chrono::Utc>::MIN_UTC);
    assert_eq!(last, chrono::DateTime::<chrono::Utc>::MAX_UTC);
    assert!(chrono::DateTime::from_timestamp(CALENDAR_FIRST_SECOND - 1, 999_999_999).is_none());
    assert!(chrono::DateTime::from_timestamp(CALENDAR_LAST_SECOND + 1, 0).is_none());
    let span = last.signed_duration_since(first).num_minutes();
    let earliest = Timestamp { secs: CALENDAR_FIRST_SECOND, nanos: 0 };
    let latest = Timestamp { secs: CALENDAR_LAST_SECOND, nanos: 999_999_999 };
    assert!(is_stale(latest, Some(earliest), span));
    assert!(!is_stale(latest, Some(earliest), span + 1));
    assert!(is_stale(earliest, Some(latest), -span));
    assert!(!is_stale(earliest, Some(latest), -span + 1));
    assert_eq!(span, 275_747_801_759);
}

#[test]
fn integers_are_read_as_the_standard_library_reads_them() {
    let samples = [
        "", "0", "-0", "+0", "7", "-7", "+7", "007", "1440", "60m", "m", "-", "+", "--1", "+-1", "1-",
        " 1", "1 ", "1_000", "1e3", "0x10", "١٢٣", "９", "9223372036854775807", "9223372036854775808",
        "-9223372036854775808", "-9223372036854775809", "18446744073709551616", "+9223372036854775807",
        "000000000000000000000000000001", "-000000000000000000000000000001", "1.0", "NaN", "²",
    ];
    for text in samples {
        assert_eq!(parse_integer(text), text.parse::<i64>().ok(), "for {:?}", text);
        assert_eq!(
            parse_refresh_interval(text),
            text.trim_end_matches('m').parse::<i64>().unwrap_or(1440),
            "for {:?}",
            text
        );
    }
    for text in ["60mmm", "mmm", "5mm5m", "m5m", "-3m", "+3m", "3M", "3 m"] {
        assert_eq!(
            parse_refresh_interval(text),
            text.trim_end_matches('m').parse::<i64>().unwrap_or(1440),
            "for {:?}",
            text
        );
    }
}

#[test]
fn elapsed_minutes_agree_with_the_calendar() {
    let cases = [
        (0i64, 0u32, 0i64, 0u32),
        (3600, 0, 0, 0),
        (3599, 999_999_999, 0, 0),
        (0, 0, 3600, 0),
        (0, 0, 3599, 999_999_999),
        (0, 0, 59, 999_999_999),
        (-1, 999_999_999, 0, 0),
        (1_700_000_000, 5, 1_699_990_000, 6),
        (-8_334_601_228_800, 0, 8_210_266_876_799, 999_999_999),
    ];
    for (secs, nanos, last_secs, last_nanos) in cases {
        let now = chrono::DateTime::from_timestamp(secs, nanos).unwrap();
        let last = chrono::DateTime::from_timestamp(last_secs, last_nanos).unwrap();
        let minutes = now.signed_duration_since(last).num_minutes();
        let a = Timestamp { secs, nanos };
        let b = Timestamp { secs: last_secs, nanos: last_nanos };
        assert!(is_stale(a, Some(b), minutes));
        assert!(!is_stale(a, Some(b), minutes + 1));
    }
}
