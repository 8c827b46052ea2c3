use gem_rs::clock::ClockState;
use gem_rs::format::pad_number;
use gem_rs::preferences::{inclusive_iterator, Bounds, Preferences, WateringWindow};

fn window(start_hour: u8, start_minute: u8, end_hour: u8, end_minute: u8) -> WateringWindow {
    WateringWindow { start_hour, start_minute, end_hour, end_minute }
}

#[test]
fn default_preferences() {
    let p = Preferences::default();
    assert_eq!(p.temperature, Bounds { low: 60, high: 80 });
    assert_eq!(p.humidity, Bounds { low: 60, high: 70 });
    assert_eq!(p.date, ClockState::epoch());
    assert!(p.watering.is_none());
}

#[test]
fn stepper_wraps_at_both_ends() {
    assert_eq!(inclusive_iterator(23, 0, 23, true), 0);
    assert_eq!(inclusive_iterator(0, 0, 23, false), 23);
    assert_eq!(inclusive_iterator(59, 0, 59, true), 0);
    assert_eq!(inclusive_iterator(1, 1, 31, false), 31);
}

#[test]
fn stepper_moves_by_one_inside_the_range() {
    assert_eq!(inclusive_iterator(10, 0, 59, true), 11);
    assert_eq!(inclusive_iterator(10, 0, 59, false), 9);
}

#[test]
fn stepper_increment_then_decrement_is_identity() {
    for v in 0..=59u8 {
        let up = inclusive_iterator(v, 0, 59, true);
        assert_eq!(inclusive_iterator(up, 0, 59, false), v);
        let down = inclusive_iterator(v, 0, 59, false);
        assert_eq!(inclusive_iterator(down, 0, 59, true), v);
    }
}

#[test]
fn change_days_wraps_within_the_month() {
    let mut p = Preferences::default();
    p.date = ClockState { second: 0, minute: 0, hour: 0, day: 31, month: 1, year: 2021 };
    assert_eq!(p.change_days(true), 1);
    p.date.day = 1;
    assert_eq!(p.change_days(false), 31);
    p.date = ClockState { second: 0, minute: 0, hour: 0, day: 29, month: 2, year: 2024 };
    assert_eq!(p.change_days(true), 1);
    assert_eq!(p.change_days(false), 28);
}

#[test]
fn threshold_membership_is_inclusive() {
    let p = Preferences::default();
    assert!(p.is_within_temperature(60));
    assert!(p.is_within_temperature(80));
    assert!(!p.is_within_temperature(59));
    assert!(!p.is_within_temperature(81));
    assert!(p.is_within_humidity(60));
    assert!(p.is_within_humidity(70));
    assert!(!p.is_within_humidity(59));
    assert!(!p.is_within_humidity(71));
}

#[test]
fn temperature_commit_swaps_illegal_order() {
    let mut p = Preferences::default();
    p.temperature = Bounds { low: 90, high: 40 };
    p.commit_temperature_edit();
    assert_eq!(p.temperature, Bounds { low: 40, high: 90 });
}

#[test]
fn temperature_commit_keeps_legal_order() {
    let mut p = Preferences::default();
    p.temperature = Bounds { low: 40, high: 90 };
    p.commit_temperature_edit();
    assert_eq!(p.temperature, Bounds { low: 40, high: 90 });
}

#[test]
fn humidity_commit_swaps_illegal_order() {
    let mut p = Preferences::default();
    p.humidity = Bounds { low: 75, high: 30 };
    p.commit_humidity_edit();
    assert_eq!(p.humidity, Bounds { low: 30, high: 75 });
}

#[test]
fn watering_commit_swaps_reversed_window() {
    let mut p = Preferences::default();
    p.watering = Some(window(8, 0, 7, 30));
    p.commit_watering_edit(false);
    assert_eq!(p.watering, Some(window(7, 30, 8, 0)));
}

#[test]
fn watering_commit_swaps_on_minutes_when_hours_tie() {
    let mut p = Preferences::default();
    p.watering = Some(window(9, 45, 9, 10));
    p.commit_watering_edit(false);
    assert_eq!(p.watering, Some(window(9, 10, 9, 45)));
}

#[test]
fn watering_commit_keeps_ordered_window() {
    let mut p = Preferences::default();
    p.watering = Some(window(7, 30, 8, 0));
    p.commit_watering_edit(false);
    assert_eq!(p.watering, Some(window(7, 30, 8, 0)));
}

#[test]
fn watering_commit_with_remove_clears_the_window() {
    let mut p = Preferences::default();
    p.watering = Some(window(7, 30, 8, 0));
    p.commit_watering_edit(true);
    assert!(p.watering.is_none());
}

#[test]
fn watering_time_inside_the_window() {
    let mut p = Preferences::default();
    p.watering = Some(window(7, 30, 8, 0));
    p.date.hour = 7;
    p.date.minute = 45;
    assert!(p.is_watering_time());
}

#[test]
fn watering_time_after_the_window() {
    let mut p = Preferences::default();
    p.watering = Some(window(7, 30, 8, 0));
    p.date.hour = 8;
    p.date.minute = 1;
    assert!(!p.is_watering_time());
}

#[test]
fn watering_time_is_inclusive_at_both_ends() {
    let mut p = Preferences::default();
    p.watering = Some(window(7, 30, 8, 0));
    p.date.hour = 7;
    p.date.minute = 30;
    assert!(p.is_watering_time());
    p.date.hour = 8;
    p.date.minute = 0;
    assert!(p.is_watering_time());
    p.date.minute = 29;
    p.date.hour = 7;
    assert!(!p.is_watering_time());
}

#[test]
fn no_window_means_no_watering_time() {
    let p = Preferences::default();
    assert!(!p.is_watering_time());
}

#[test]
fn default_watering_window_is_midnight_to_one() {
    let mut p = Preferences::default();
    p.set_default_watering_time();
    assert_eq!(p.watering, Some(window(0, 0, 1, 0)));
}

#[test]
fn formatted_watering_time() {
    let mut p = Preferences::default();
    p.watering = Some(window(7, 30, 8, 0));
    let line = p.format_watering_time();
    assert_eq!(line, "07:30 - 08:00");
    assert!(line.len() <= 16);
}

#[test]
fn formatted_watering_time_without_schedule() {
    let p = Preferences::default();
    assert_eq!(p.format_watering_time(), "None");
}

#[test]
fn pad_number_pads_below_ten() {
    assert_eq!(pad_number(5), "05");
    assert_eq!(pad_number(0), "00");
    assert_eq!(pad_number(42), "42");
    assert_eq!(pad_number(99), "99");
}
