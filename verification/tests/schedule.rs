use yt_sub::schedule::{is_due, matching_schedule, matching_schedule_at};
use yt_sub::{Timestamp, UserSettings};

fn time_at_hour(hour: i64) -> Timestamp {
    // 2024-05-01T00:00:00Z plus the hour, and some minutes.
    Timestamp::new(1_714_521_600 + hour * 3600 + 17 * 60, 0)
}

#[test]
fn without_a_schedule_every_time_is_due() {
    for hour in 0..24 {
        assert!(is_due(&None, &time_at_hour(hour)));
    }
    assert!(is_due(&None, &Timestamp::new(-5, 0)));
}

#[test]
fn due_in_a_listed_hour() {
    assert!(is_due(&Some(vec![3, 15]), &time_at_hour(3)));
    assert!(is_due(&Some(vec![3, 15]), &time_at_hour(15)));
}

#[test]
fn not_due_in_another_hour() {
    assert!(!is_due(&Some(vec![3, 15]), &time_at_hour(4)));
    assert!(!is_due(&Some(vec![3, 15]), &time_at_hour(2)));
    assert!(!is_due(&Some(vec![3, 15]), &time_at_hour(14)));
}

#[test]
fn an_empty_schedule_is_never_due() {
    for hour in 0..24 {
        assert!(!is_due(&Some(vec![]), &time_at_hour(hour)));
    }
}

#[test]
fn minutes_and_seconds_play_no_part() {
    let start = 1_714_521_600 + 3 * 3600;
    assert!(is_due(&Some(vec![3]), &Timestamp::new(start, 0)));
    assert!(is_due(&Some(vec![3]), &Timestamp::new(start + 3599, 999_999_999)));
    assert!(!is_due(&Some(vec![3]), &Timestamp::new(start + 3600, 0)));
    assert!(!is_due(&Some(vec![3]), &Timestamp::new(start - 1, 0)));
}

#[test]
fn an_hour_out_of_the_day_never_matches() {
    assert!(!is_due(&Some(vec![24, 99]), &time_at_hour(0)));
}

#[test]
fn settings_are_due_by_their_schedule() {
    let mut settings = UserSettings::default("config.toml".to_string());
    assert!(matching_schedule_at(&settings, &time_at_hour(7)));
    settings.schedule = Some(vec![8]);
    assert!(!matching_schedule_at(&settings, &time_at_hour(7)));
    assert!(matching_schedule_at(&settings, &time_at_hour(8)));
}

#[test]
fn at_present_an_account_is_due_by_its_schedule() {
    let mut settings = UserSettings::default("config.toml".to_string());
    assert!(matching_schedule(&settings));
    settings.schedule = Some((0..24).collect());
    assert!(matching_schedule(&settings));
    settings.schedule = Some(vec![]);
    assert!(!matching_schedule(&settings));
    settings.schedule = Some(vec![24]);
    assert!(!matching_schedule(&settings));
}
