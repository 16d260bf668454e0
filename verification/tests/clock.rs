use daily::clock::{parse_clock_time, Timestamp, MAX_SECS, MIN_SECS};

#[test]
fn new_accepts_the_supported_range_only() {
    assert!(Timestamp::new(MIN_SECS, 0, 0).is_some());
    assert!(Timestamp::new(MAX_SECS, 999_999_999, 86_399).is_some());
    assert!(Timestamp::new(MIN_SECS - 1, 0, 0).is_none());
    assert!(Timestamp::new(MAX_SECS + 1, 0, 0).is_none());
    assert!(Timestamp::new(0, 1_000_000_000, 0).is_none());
    assert!(Timestamp::new(0, 0, 86_400).is_none());
    assert!(Timestamp::new(0, 0, -86_400).is_none());
    assert!(Timestamp::new(0, 0, -86_399).is_some());
}

#[test]
fn saturating_clamps_each_number() {
    let t = Timestamp::saturating(i64::MAX, u32::MAX, i32::MAX);
    assert_eq!(t.unix_seconds(), MAX_SECS);
    assert_eq!(t.subsec_nanos(), 999_999_999);
    assert_eq!(t.utc_offset(), 86_399);
    let t = Timestamp::saturating(i64::MIN, 5, i32::MIN);
    assert_eq!(t.unix_seconds(), MIN_SECS);
    assert_eq!(t.subsec_nanos(), 5);
    assert_eq!(t.utc_offset(), -86_399);
    let t = Timestamp::saturating(12, 34, 56);
    assert_eq!((t.unix_seconds(), t.subsec_nanos(), t.utc_offset()), (12, 34, 56));
}

#[test]
fn now_is_after_2020() {
    let now = Timestamp::now();
    now.valid();
    assert!(now.unix_seconds() > 1_577_836_800);
    assert!(now.subsec_nanos() < 1_000_000_000);
}

#[test]
fn ordering_is_by_instant() {
    let a = Timestamp::new(10, 5, 0).unwrap();
    let b = Timestamp::new(10, 6, 3600).unwrap();
    let c = Timestamp::new(10, 5, -3600).unwrap();
    assert!(a.is_before(&b));
    assert!(!b.is_before(&a));
    assert!(!a.is_before(&c));
    assert!(a.same_instant(&c));
    assert!(!a.same_instant(&b));
}

#[test]
fn seconds_until_rounds_toward_zero() {
    let a = Timestamp::new(10, 900_000_000, 0).unwrap();
    let b = Timestamp::new(12, 100_000_000, 0).unwrap();
    assert_eq!(a.seconds_until(&b), 1);
    assert_eq!(b.seconds_until(&a), -1);
    assert_eq!(a.seconds_until(&a), 0);
    let c = Timestamp::new(12, 900_000_000, 0).unwrap();
    assert_eq!(a.seconds_until(&c), 2);
}

#[test]
fn older_than_days() {
    let start = Timestamp::new(0, 0, 0).unwrap();
    let seven = Timestamp::new(7 * 86_400, 0, 0).unwrap();
    let seven_and_a_bit = Timestamp::new(7 * 86_400, 1, 0).unwrap();
    assert!(!start.is_older_than(&seven, 7));
    assert!(start.is_older_than(&seven_and_a_bit, 7));
    assert!(start.is_older_than(&seven, 6));
    assert!(!start.is_older_than(&seven, u32::MAX));
}

#[test]
fn days_and_seconds_of_the_local_day() {
    let utc = Timestamp::new(1_700_000_000, 0, 0).unwrap();
    assert_eq!(utc.day_number(), 19_675);
    assert_eq!(utc.second_of_day(), 22 * 3600 + 13 * 60 + 20);
    let east = Timestamp::new(1_700_000_000, 0, 2 * 3600).unwrap();
    assert_eq!(east.day_number(), 19_676);
    assert_eq!(east.second_of_day(), 13 * 60 + 20);
    let before_epoch = Timestamp::new(-1, 0, 0).unwrap();
    assert_eq!(before_epoch.day_number(), -1);
    assert_eq!(before_epoch.second_of_day(), 86_399);
    let first = Timestamp::new(MIN_SECS, 0, -86_399).unwrap();
    assert_eq!(first.day_number(), -719_163);
    assert_eq!(first.second_of_day(), 1);
}

#[test]
fn days_before_shifts_by_whole_days() {
    let t = Timestamp::new(1_700_000_000, 7, 60).unwrap();
    let y = t.days_before(1);
    assert_eq!(y.unix_seconds(), 1_700_000_000 - 86_400);
    assert_eq!(y.subsec_nanos(), 7);
    assert_eq!(y.utc_offset(), 60);
    assert_eq!(t.days_before(0).unix_seconds(), 1_700_000_000);
    assert_eq!(t.days_before(u32::MAX).unix_seconds(), MIN_SECS);
}

#[test]
fn formats_with_each_known_pattern() {
    let t = Timestamp::new(1_700_000_000, 0, 0).unwrap();
    assert_eq!(t.format("%Y%m%d-%H%M%S"), "20231114-221320");
    assert_eq!(t.format("%Y-%m-%d"), "2023-11-14");
    assert_eq!(t.format("%Y-%m-%d %H:%M:%S"), "2023-11-14 22:13:20");
    assert_eq!(t.format("%H%M%S"), "221320");
    assert_eq!(t.format("%H_%M"), "22_13");
    assert_eq!(t.format("%H:%M"), "22:13");
    let west = Timestamp::new(1_700_000_000, 0, -5 * 3600).unwrap();
    assert_eq!(west.format("%Y-%m-%d %H:%M:%S"), "2023-11-14 17:13:20");
}

#[test]
fn formats_the_edges_of_the_range() {
    let first = Timestamp::new(MIN_SECS, 0, 0).unwrap();
    assert_eq!(first.format("%Y-%m-%d %H:%M:%S"), "0001-01-01 00:00:00");
    let last = Timestamp::new(MAX_SECS, 999_999_999, 0).unwrap();
    assert_eq!(last.format("%Y-%m-%d %H:%M:%S"), "9999-12-31 23:59:59");
    let _ = Timestamp::new(MIN_SECS, 0, -86_399).unwrap().format("%Y-%m-%d");
    let _ = Timestamp::new(MAX_SECS, 0, 86_399).unwrap().format("%Y-%m-%d");
}

#[test]
fn rfc3339_round_trip() {
    let t = Timestamp::new(1_700_000_000, 123_000_000, 3600).unwrap();
    let text = t.to_rfc3339();
    assert_eq!(text, "2023-11-14T23:13:20.123+01:00");
    let back = Timestamp::parse_rfc3339(&text).unwrap();
    assert_eq!(back.unix_seconds(), 1_700_000_000);
    assert_eq!(back.subsec_nanos(), 123_000_000);
    assert_eq!(back.utc_offset(), 3600);
}

#[test]
fn rfc3339_rejects_what_is_no_such_text() {
    assert!(Timestamp::parse_rfc3339("").is_none());
    assert!(Timestamp::parse_rfc3339("2023-11-14").is_none());
    assert!(Timestamp::parse_rfc3339("yesterday").is_none());
    assert!(Timestamp::parse_rfc3339("2023-11-14T25:00:00Z").is_none());
}

#[test]
fn rfc3339_readings_out_of_range_are_clamped() {
    let early = Timestamp::parse_rfc3339("0000-06-01T00:00:00Z").unwrap();
    assert_eq!(early.unix_seconds(), MIN_SECS);
    let late = Timestamp::parse_rfc3339("9999-12-31T23:59:59-01:00").unwrap();
    assert_eq!(late.unix_seconds(), MAX_SECS);
    assert_eq!(late.utc_offset(), -3600);
    let last = Timestamp::parse_rfc3339("9999-12-31T23:59:59Z").unwrap();
    assert_eq!(last.unix_seconds(), MAX_SECS);
    let leap = Timestamp::parse_rfc3339("2023-11-14T22:13:60Z").unwrap();
    assert_eq!(leap.unix_seconds(), 1_700_000_039);
    assert_eq!(leap.subsec_nanos(), 999_999_999);
    assert_eq!(leap.second_of_day(), 22 * 3600 + 13 * 60 + 59);
}

#[test]
fn clock_times() {
    assert_eq!(parse_clock_time("06:00").ok(), Some(6 * 3600));
    assert_eq!(parse_clock_time("00:00").ok(), Some(0));
    assert_eq!(parse_clock_time("23:59").ok(), Some(23 * 3600 + 59 * 60));
    assert_eq!(parse_clock_time("7:15").ok(), Some(7 * 3600 + 15 * 60));
    assert!(parse_clock_time("24:00").is_err());
    assert!(parse_clock_time("17:60").is_err());
    assert!(parse_clock_time("noon").is_err());
    assert!(parse_clock_time("").is_err());
}
