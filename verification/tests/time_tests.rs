use chrono::TimeZone;
use github_issues_migrator::github::read_instant_or;
use github_issues_migrator::time::{
    to_bson_date_time, to_timestamp, BsonDateTime, Timestamp, MAX_UTC_MILLIS, MAX_UTC_SECS, MIN_UTC_MILLIS,
    MIN_UTC_SECS,
};

const FALLBACK: Timestamp = Timestamp { secs: 77, nanos: 7 };

fn parse_rfc3339(text: &str) -> Option<Timestamp> {
    let r = read_instant_or(&Some(text.to_string()), FALLBACK);
    if r == FALLBACK { None } else { Some(r) }
}

fn via_bson(millis: i64) -> Timestamp {
    let dt = bson::DateTime::from_millis(millis).to_chrono();
    Timestamp { secs: dt.timestamp(), nanos: dt.timestamp_subsec_nanos() }
}

#[test]
fn to_bson_date_time_truncates_to_milliseconds() {
    assert_eq!(to_bson_date_time(Timestamp { secs: 1, nanos: 999_999_999 }).millis, 1999);
    assert_eq!(to_bson_date_time(Timestamp { secs: -1, nanos: 500_000_000 }).millis, -500);
    assert_eq!(to_bson_date_time(Timestamp { secs: 0, nanos: 0 }).millis, 0);
    assert_eq!(to_bson_date_time(Timestamp { secs: 1_700_000_000, nanos: 123_456_789 }).millis, 1_700_000_000_123);
}

#[test]
fn to_bson_date_time_agrees_with_bson() {
    for (secs, nanos) in [(0i64, 0u32), (1, 999_999_999), (-1, 1), (1_700_000_000, 123_456_789), (-86_400, 999_000_000)] {
        let dt = chrono::Utc.timestamp_opt(secs, nanos).unwrap();
        assert_eq!(to_bson_date_time(Timestamp { secs, nanos }).millis, bson::DateTime::from_chrono(dt).timestamp_millis());
    }
}

#[test]
fn to_timestamp_reads_milliseconds() {
    assert_eq!(to_timestamp(BsonDateTime { millis: 1999 }), Timestamp { secs: 1, nanos: 999_000_000 });
    assert_eq!(to_timestamp(BsonDateTime { millis: -1 }), Timestamp { secs: -1, nanos: 999_000_000 });
    assert_eq!(to_timestamp(BsonDateTime { millis: 0 }), Timestamp { secs: 0, nanos: 0 });
}

#[test]
fn to_timestamp_saturates_outside_the_range() {
    assert_eq!(to_timestamp(BsonDateTime { millis: i64::MIN }), Timestamp { secs: MIN_UTC_SECS, nanos: 0 });
    assert_eq!(to_timestamp(BsonDateTime { millis: i64::MAX }), Timestamp { secs: MAX_UTC_SECS, nanos: 999_999_999 });
}

#[test]
fn to_timestamp_agrees_with_bson_at_the_limits() {
    for m in [
        i64::MIN,
        MIN_UTC_MILLIS - 1,
        MIN_UTC_MILLIS,
        MIN_UTC_MILLIS + 1,
        -1001,
        -1000,
        -999,
        -1,
        0,
        1,
        999,
        1000,
        1_700_000_000_123,
        MAX_UTC_MILLIS - 1,
        MAX_UTC_MILLIS,
        MAX_UTC_MILLIS + 1,
        i64::MAX,
    ] {
        assert_eq!(to_timestamp(BsonDateTime { millis: m }), via_bson(m), "millis {}", m);
    }
}

#[test]
fn millis_round_trip_through_instants() {
    for m in [MIN_UTC_MILLIS, -1, 0, 1, 1_700_000_000_123, MAX_UTC_MILLIS] {
        assert_eq!(to_bson_date_time(to_timestamp(BsonDateTime { millis: m })).millis, m);
    }
}

#[test]
fn instant_round_trip_drops_sub_millisecond_part() {
    let t = Timestamp { secs: 1_700_000_000, nanos: 123_456_789 };
    assert_eq!(to_timestamp(to_bson_date_time(t)), Timestamp { secs: 1_700_000_000, nanos: 123_000_000 });
}

#[test]
fn parse_rfc3339_reads_date_times() {
    assert_eq!(parse_rfc3339("1970-01-01T00:00:00Z"), Some(Timestamp { secs: 0, nanos: 0 }));
    assert_eq!(
        parse_rfc3339("2024-01-02T03:04:05.5Z"),
        Some(Timestamp { secs: 1_704_164_645, nanos: 500_000_000 })
    );
    assert_eq!(
        parse_rfc3339("2024-01-02T05:04:05+02:00"),
        Some(Timestamp { secs: 1_704_164_645, nanos: 0 })
    );
    assert_eq!(parse_rfc3339("2024-01-02"), None);
    assert_eq!(parse_rfc3339("not a date"), None);
    assert_eq!(parse_rfc3339(""), None);
}

#[test]
fn read_instant_or_falls_back_when_absent() {
    assert_eq!(read_instant_or(&None, FALLBACK), FALLBACK);
}
