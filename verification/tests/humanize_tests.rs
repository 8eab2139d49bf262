use std::time::Duration;

use nobs::humanize::{
    epoch_seconds, humanize_at, humanize_relative, humanize_seconds, humanize_target, TimeTarget, DAY, HOUR,
    MINUTE, MONTH, WEEK, YEAR,
};
use nobs::text::decimal_string;
use nobs::{get_current_time, Humanize};

#[test]
fn seconds_at_unit_boundaries() {
    assert_eq!(humanize_seconds(0), "just now");
    assert_eq!(humanize_seconds(10), "just now");
    assert_eq!(humanize_seconds(11), "11 seconds");
    assert_eq!(humanize_seconds(MINUTE), "60 seconds");
    assert_eq!(humanize_seconds(MINUTE + 1), "a minute");
    assert_eq!(humanize_seconds(2 * MINUTE), "a minute");
    assert_eq!(humanize_seconds(2 * MINUTE + 1), "2 minutes");
    assert_eq!(humanize_seconds(HOUR), "60 minutes");
    assert_eq!(humanize_seconds(HOUR + 1), "an hour");
    assert_eq!(humanize_seconds(2 * HOUR + 1), "2 hours");
    assert_eq!(humanize_seconds(DAY + 1), "a day");
    assert_eq!(humanize_seconds(2 * DAY + 1), "2 days");
    assert_eq!(humanize_seconds(WEEK + 1), "a week");
    assert_eq!(humanize_seconds(2 * WEEK + 1), "2 weeks");
    assert_eq!(humanize_seconds(MONTH + 1), "a month");
    assert_eq!(humanize_seconds(2 * MONTH + 1), "2 months");
    assert_eq!(humanize_seconds(YEAR + 1), "a year");
    assert_eq!(humanize_seconds(2 * YEAR + 1), "2 years");
    assert_eq!(humanize_seconds(10 * YEAR), "10 years");
    assert_eq!(humanize_seconds(u64::MAX), "584942417355 years");
}

#[test]
fn relative_phrases() {
    assert_eq!(humanize_relative(1_000, 1_000), "just now");
    assert_eq!(humanize_relative(990, 1_000), "just now");
    assert_eq!(humanize_relative(1_010, 1_000), "just now");
    assert_eq!(humanize_relative(950, 1_000), "50 seconds ago");
    assert_eq!(humanize_relative(1_000 + 3_601, 1_000), "in an hour");
    assert_eq!(humanize_relative(0, 3 * DAY as i64 + 5), "3 days ago");
    assert_eq!(humanize_relative(i64::MIN, i64::MAX), "584942417355 years ago");
    assert_eq!(humanize_relative(i64::MAX, i64::MIN), "in 584942417355 years");
}

#[test]
fn duration_humanizes_its_seconds() {
    assert_eq!(Duration::from_secs(7_200).humanize(), "an hour");
    assert_eq!(Duration::from_secs(3).humanize(), "just now");
    assert_eq!(Duration::new(400, 999_999_999).humanize(), "6 minutes");
}

#[test]
fn current_time_is_recent_and_now_is_just_now() {
    let now = get_current_time().unwrap();
    assert!(now > 1_600_000_000);
    assert_eq!(now.humanize(), "just now");
    assert_eq!((now - 3 * DAY as i64 - 100).humanize(), "3 days ago");
    assert_eq!((now + 2 * YEAR as i64 + 1_000).humanize(), "in 2 years");
}

#[test]
fn git_time_humanizes_its_instant() {
    let now = get_current_time().unwrap();
    let t = git2::Time::new(now - 2 * HOUR as i64 - 500, 60);
    assert_eq!(t.humanize(), "2 hours ago");
}

#[test]
fn epoch_readings() {
    assert_eq!(epoch_seconds(Some(5)), Ok(5));
    assert_eq!(epoch_seconds(None), Err("Time went backwards".to_string()));
    assert_eq!(epoch_seconds(Some(u64::MAX)), Ok(-1));
}

#[test]
fn template_target_argument() {
    assert_eq!(humanize_target(None, Ok(0)), Err("No target time given.".to_string()));
    assert_eq!(
        humanize_target(None, Err("Time went backwards".to_string())),
        Err("No target time given.".to_string())
    );
    assert_eq!(
        humanize_target(Some(TimeTarget::Other("\"soon\"".to_string())), Ok(0)),
        Err("`target` must be a i64, got \"soon\" instead.".to_string())
    );
    assert_eq!(
        humanize_target(Some(TimeTarget::Integer(150)), Ok(200)),
        Ok("50 seconds ago".to_string())
    );
    assert_eq!(
        humanize_target(Some(TimeTarget::Integer(150)), Err("Time went backwards".to_string())),
        Err("Time went backwards".to_string())
    );
}

#[test]
fn words_at_a_clock_reading() {
    assert_eq!(humanize_at(0, Ok(5)), "just now");
    assert_eq!(humanize_at(0, Ok(3 * HOUR as i64)), "3 hours ago");
    assert_eq!(humanize_at(0, Err("Time went backwards".to_string())), "Time went backwards");
}

#[test]
fn decimal_rendering() {
    assert_eq!(decimal_string(0), "0");
    assert_eq!(decimal_string(7), "7");
    assert_eq!(decimal_string(1_234_567_890), "1234567890");
    assert_eq!(decimal_string(u64::MAX), u64::MAX.to_string());
}
