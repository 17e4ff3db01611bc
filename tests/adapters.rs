use chrono::{NaiveDate, TimeZone, Utc};
use sure_client::serde::calendar_date::{self, CalendarDate};
use sure_client::serde::duration_from_secs::{self, Duration};
use sure_client::serde::naive_date::{self, Instant};
use sure_client::ParseFailure;

#[test]
fn date_round_trip() {
    for s in ["2024-01-15", "0000-01-01", "9999-12-31", "2024-02-29", "1970-01-01"] {
        let d = calendar_date::deserialize(s).unwrap();
        assert_eq!(calendar_date::serialize(&d), s);
    }
}

#[test]
fn date_fields() {
    let d = calendar_date::deserialize("2024-01-15").unwrap();
    assert_eq!(d, CalendarDate { year: 2024, month: 1, day: 15 });
    assert_eq!(calendar_date::serialize(&CalendarDate { year: 7, month: 3, day: 9 }), "0007-03-09");
}

#[test]
fn malformed_dates_fail() {
    for s in ["2024-1-15", "2023-02-29", "2024-13-01", "2024-00-10", "2024/01/15", "", "2024-01-15T00:00:00Z", "20240115", "2024-04-31"] {
        match calendar_date::deserialize(s) {
            Err(ParseFailure::Date { text }) => assert_eq!(text, s),
            other => panic!("{s:?} gave {other:?}"),
        }
    }
}

#[test]
fn optional_dates() {
    assert_eq!(calendar_date::deserialize_option(None), Ok(None));
    assert_eq!(
        calendar_date::deserialize_option(Some("2024-03-01")),
        Ok(Some(CalendarDate { year: 2024, month: 3, day: 1 }))
    );
    assert!(calendar_date::deserialize_option(Some("nope")).is_err());
    assert_eq!(calendar_date::serialize_option(&None), None);
    assert_eq!(
        calendar_date::serialize_option(&Some(CalendarDate { year: 2024, month: 3, day: 1 })),
        Some("2024-03-01".to_string())
    );
}

#[test]
fn instant_fallback_is_midnight_utc() {
    let bare = naive_date::deserialize("2024-01-15").unwrap();
    let full = naive_date::deserialize("2024-01-15T00:00:00Z").unwrap();
    assert_eq!(bare, full);
    assert_eq!(bare, Instant { secs: 1_705_276_800, nanos: 0 });
}

#[test]
fn midnight_matches_chrono() {
    for (y, m, d) in [(1970, 1, 1), (2024, 1, 15), (2000, 2, 29), (0, 1, 1), (0, 3, 1), (1969, 12, 31), (9999, 12, 31), (1900, 3, 1)] {
        let text = format!("{y:04}-{m:02}-{d:02}");
        let ours = naive_date::deserialize(&text).unwrap();
        let expected = NaiveDate::from_ymd_opt(y, m, d).unwrap().and_hms_opt(0, 0, 0).unwrap().and_utc();
        assert_eq!(ours.secs, expected.timestamp(), "{text}");
    }
}

#[test]
fn instants_with_offsets() {
    let t = naive_date::deserialize("2024-01-15T12:30:00+02:00").unwrap();
    assert_eq!(t.secs, Utc.with_ymd_and_hms(2024, 1, 15, 10, 30, 0).unwrap().timestamp());
    let t = naive_date::deserialize("2024-01-15T12:30:00.250Z").unwrap();
    assert_eq!(t.nanos, 250_000_000);
}

#[test]
fn bad_instants_fail() {
    for s in ["yesterday", "2024-01-15T25:00:00Z", "2024-02-30", ""] {
        match naive_date::deserialize(s) {
            Err(ParseFailure::Timestamp { text }) => assert_eq!(text, s),
            other => panic!("{s:?} gave {other:?}"),
        }
    }
}

#[test]
fn instant_serializes_as_rfc3339() {
    let t = naive_date::deserialize("2024-01-15").unwrap();
    assert_eq!(naive_date::serialize(&t), Some("2024-01-15T00:00:00+00:00".to_string()));
    assert_eq!(naive_date::serialize(&Instant { secs: i64::MAX, nanos: 0 }), None);
}

#[test]
fn duration_scenario() {
    let d = duration_from_secs::deserialize(3600).unwrap();
    assert_eq!(d, Duration { secs: 3600, nanos: 0 });
    assert_eq!(d.as_secs(), 3600);
    assert_eq!(duration_from_secs::serialize(&d), 3600);
}

#[test]
fn negative_durations_are_refused() {
    assert_eq!(
        duration_from_secs::deserialize(-1),
        Err(ParseFailure::NegativeDuration { seconds: -1 })
    );
    assert_eq!(duration_from_secs::deserialize(0), Ok(Duration::from_secs(0)));
}

#[test]
fn duration_serialization_edges() {
    assert_eq!(duration_from_secs::serialize(&Duration { secs: 5, nanos: 999_999_999 }), 5);
    assert_eq!(duration_from_secs::serialize(&Duration { secs: u64::MAX, nanos: 0 }), i64::MAX);
}
