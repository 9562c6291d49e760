use yt_sub::Timestamp;

#[test]
fn hour_of_day_at_the_epoch_is_zero() {
    assert_eq!(Timestamp::new(0, 0).utc_hour(), 0);
}

#[test]
fn hour_of_day_counts_whole_hours() {
    assert_eq!(Timestamp::new(3 * 3600, 0).utc_hour(), 3);
    assert_eq!(Timestamp::new(3 * 3600 + 3599, 999_999_999).utc_hour(), 3);
    assert_eq!(Timestamp::new(4 * 3600, 0).utc_hour(), 4);
    assert_eq!(Timestamp::new(86_400 + 23 * 3600 + 59 * 60, 0).utc_hour(), 23);
}

#[test]
fn hour_of_day_before_the_epoch() {
    assert_eq!(Timestamp::new(-1, 0).utc_hour(), 23);
    assert_eq!(Timestamp::new(-3600, 0).utc_hour(), 23);
    assert_eq!(Timestamp::new(-3601, 0).utc_hour(), 22);
    assert_eq!(Timestamp::new(-86_400, 0).utc_hour(), 0);
}

#[test]
fn hour_of_day_of_a_known_date() {
    // 2024-05-01T10:00:00Z
    assert_eq!(Timestamp::new(1_714_557_600, 0).utc_hour(), 10);
}

#[test]
fn later_is_by_seconds_then_nanoseconds() {
    let a = Timestamp::new(10, 5);
    assert!(Timestamp::new(11, 0).after(&a));
    assert!(Timestamp::new(10, 6).after(&a));
    assert!(!Timestamp::new(10, 5).after(&a));
    assert!(!Timestamp::new(10, 4).after(&a));
    assert!(!Timestamp::new(9, 999).after(&a));
}

#[test]
fn seconds_before_keeps_the_nanoseconds() {
    let t = Timestamp::new(1_000_000, 77).seconds_before(604_800);
    assert_eq!(t, Timestamp::new(395_200, 77));
}

#[test]
fn rfc3339_text_is_read_in_utc() {
    assert_eq!(
        Timestamp::from_rfc3339("2024-05-01T10:00:00+00:00"),
        Some(Timestamp::new(1_714_557_600, 0))
    );
    assert_eq!(
        Timestamp::from_rfc3339("2024-05-01T12:30:45+02:00"),
        Some(Timestamp::new(1_714_559_445, 0))
    );
    assert_eq!(
        Timestamp::from_rfc3339("2015-05-15T00:00:00.250Z"),
        Some(Timestamp::new(1_431_648_000, 250_000_000))
    );
}

#[test]
fn rfc3339_text_that_is_no_date_is_refused() {
    assert_eq!(Timestamp::from_rfc3339("yesterday"), None);
    assert_eq!(Timestamp::from_rfc3339(""), None);
    assert_eq!(Timestamp::from_rfc3339("2024-05-01"), None);
}

#[test]
fn rfc3339_text_is_written_in_utc() {
    assert_eq!(
        Timestamp::new(0, 0).to_rfc3339(),
        Some("1970-01-01T00:00:00+00:00".to_string())
    );
    assert_eq!(
        Timestamp::new(1_431_648_000, 250_000_000).to_rfc3339(),
        Some("2015-05-15T00:00:00.250+00:00".to_string())
    );
}

#[test]
fn rfc3339_text_of_an_instant_out_of_range_is_none() {
    assert_eq!(Timestamp::new(i64::MAX, 0).to_rfc3339(), None);
    assert_eq!(Timestamp::new(0, 2_000_000_000).to_rfc3339(), None);
}

#[test]
fn rfc3339_round_trip_on_a_known_instant() {
    let t = Timestamp::new(1_714_816_200, 123_456_789);
    let text = t.to_rfc3339().unwrap();
    assert_eq!(Timestamp::from_rfc3339(&text), Some(t));
}
