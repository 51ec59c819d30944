use argus::utils::time::{
    format_clock, format_datetime, format_duration, format_duration_compact, format_relative_at,
    parse_timestamp,
};

#[test]
fn test_format_duration() {
    assert_eq!(format_duration(30_000), "30s");
    assert_eq!(format_duration(90_000), "1m 30s");
    assert_eq!(format_duration(3_665_000), "1h 1m 5s");
}

#[test]
fn test_format_duration_compact() {
    assert_eq!(format_duration_compact(30_000), "30s");
    assert_eq!(format_duration_compact(90_000), "1m");
    assert_eq!(format_duration_compact(3_665_000), "1h 1m");
}

#[test]
fn negative_durations_show_zero_seconds() {
    assert_eq!(format_duration(-5_000), "0s");
    assert_eq!(format_duration_compact(-1_000), "0s");
}

#[test]
fn compact_duration_drops_zero_minutes() {
    assert_eq!(format_duration_compact(7_200_000), "2h");
    assert_eq!(format_duration_compact(999), "0s");
}

#[test]
fn relative_times_pick_the_largest_unit() {
    let now = 1_700_000_000_000;
    assert_eq!(format_relative_at(now - 30_000, now), "30 seconds ago");
    assert_eq!(format_relative_at(now - 90_000, now), "1 minute ago");
    assert_eq!(format_relative_at(now - 5 * 3_600_000, now), "5 hours ago");
    assert_eq!(format_relative_at(now - 3 * 86_400_000, now), "3 days ago");
    assert_eq!(format_relative_at(now - 14 * 86_400_000, now), "2 weeks ago");
    assert_eq!(format_relative_at(now - 60 * 86_400_000, now), "2 months ago");
    assert_eq!(format_relative_at(now + 5_000, now), "in the future");
    assert_eq!(format_relative_at(now - 2 * 3_600_000, now), "2 hours ago");
    assert_eq!(format_relative_at(now - 3_600_000, now), "1 hour ago");
    assert_eq!(format_relative_at(now - 1_000, now), "1 second ago");
}

#[test]
fn datetime_formats_in_utc() {
    assert_eq!(format_datetime(0), "1970-01-01 00:00:00 UTC");
    assert_eq!(format_datetime(1_704_164_645_000), "2024-01-02 03:04:05 UTC");
}

#[test]
fn timestamps_parse_to_milliseconds() {
    assert_eq!(parse_timestamp("2024-01-02T03:04:05Z").unwrap(), 1_704_164_645_000);
    assert_eq!(parse_timestamp("2024-01-02T05:04:05+02:00").unwrap(), 1_704_164_645_000);
    assert!(parse_timestamp("yesterday").is_err());
}

#[test]
fn clock_times_in_utc() {
    assert_eq!(format_clock(3_661_000), "01:01:01");
}
