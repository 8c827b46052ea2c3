use gem_rs::clock::ClockState;
use gem_rs::edit::{
    next_date_field, next_watering_field, range_edit_sample, saturating_step,
    watering_sample_action, DateField, EditClock, RangeEditSession, WateringField,
    WateringSampleAction,
};
use gem_rs::preferences::{Bounds, Preferences, WateringWindow};

#[test]
fn threshold_step_saturates_at_scale_ends() {
    assert_eq!(saturating_step(100, true), 100);
    assert_eq!(saturating_step(0, false), 0);
    assert_eq!(saturating_step(64, true), 65);
    assert_eq!(saturating_step(64, false), 63);
}

#[test]
fn range_edit_steps_lower_then_higher_bound() {
    let mut bounds = Bounds { low: 60, high: 80 };
    let mut session = RangeEditSession::begin();
    range_edit_sample(&mut bounds, &mut session, true, false, false);
    assert_eq!(bounds, Bounds { low: 61, high: 80 });
    // Select moves on to the higher bound.
    range_edit_sample(&mut bounds, &mut session, false, false, true);
    assert!(!session.editing_lower);
    assert!(!session.done);
    range_edit_sample(&mut bounds, &mut session, false, true, false);
    assert_eq!(bounds, Bounds { low: 61, high: 79 });
    // A second Select ends the session.
    range_edit_sample(&mut bounds, &mut session, false, false, true);
    assert!(session.done);
}

#[test]
fn range_edit_ignores_a_quiet_sample() {
    let mut bounds = Bounds { low: 60, high: 80 };
    let mut session = RangeEditSession::begin();
    range_edit_sample(&mut bounds, &mut session, false, false, false);
    assert_eq!(bounds, Bounds { low: 60, high: 80 });
    assert!(session.editing_lower);
    assert!(!session.done);
}

#[test]
fn editing_never_freezes_the_clock() {
    let mut p = Preferences::default();
    let mut cadence = EditClock::new();
    // Samples are half a second apart: every other one adds a second.
    for _ in 0..10 {
        cadence.pass(&mut p);
    }
    assert_eq!(p.date.second, 5);
}

#[test]
fn date_fields_are_visited_in_order() {
    assert_eq!(next_date_field(DateField::Minute), Some(DateField::Hour));
    assert_eq!(next_date_field(DateField::Hour), Some(DateField::Day));
    assert_eq!(next_date_field(DateField::Day), Some(DateField::Month));
    assert_eq!(next_date_field(DateField::Month), Some(DateField::Year));
    assert_eq!(next_date_field(DateField::Year), None);
}

#[test]
fn date_edit_steps_each_field() {
    let mut p = Preferences::default();
    p.date = ClockState { second: 0, minute: 59, hour: 23, day: 31, month: 12, year: 2020 };
    p.edit_date_field(DateField::Minute, true);
    assert_eq!(p.date.minute, 0);
    p.edit_date_field(DateField::Hour, true);
    assert_eq!(p.date.hour, 0);
    p.edit_date_field(DateField::Day, true);
    assert_eq!(p.date.day, 1);
    p.edit_date_field(DateField::Month, true);
    assert_eq!(p.date.month, 1);
    p.edit_date_field(DateField::Year, true);
    assert_eq!(p.date.year, 2021);
}

#[test]
fn year_never_wraps_and_floors_at_zero() {
    let mut p = Preferences::default();
    p.date.year = 0;
    p.edit_date_field(DateField::Year, false);
    assert_eq!(p.date.year, 0);
    p.edit_date_field(DateField::Year, true);
    assert_eq!(p.date.year, 1);
}

#[test]
fn finishing_a_date_edit_clamps_the_day() {
    let mut p = Preferences::default();
    p.date = ClockState { second: 0, minute: 0, hour: 0, day: 31, month: 1, year: 2023 };
    // Stepping the month to February leaves day 31 out of range.
    p.edit_date_field(DateField::Month, true);
    assert_eq!(p.date.month, 2);
    assert_eq!(p.date.day, 31);
    p.finish_date_edit();
    assert_eq!(p.date.day, 28);
}

#[test]
fn finishing_a_date_edit_keeps_a_fitting_day() {
    let mut p = Preferences::default();
    p.date = ClockState { second: 0, minute: 0, hour: 0, day: 28, month: 2, year: 2023 };
    p.finish_date_edit();
    assert_eq!(p.date.day, 28);
}

#[test]
fn watering_fields_are_visited_in_order() {
    assert_eq!(next_watering_field(WateringField::StartHour), Some(WateringField::StartMinute));
    assert_eq!(next_watering_field(WateringField::StartMinute), Some(WateringField::EndHour));
    assert_eq!(next_watering_field(WateringField::EndHour), Some(WateringField::EndMinute));
    assert_eq!(next_watering_field(WateringField::EndMinute), None);
}

#[test]
fn both_step_buttons_together_mean_delete() {
    assert_eq!(watering_sample_action(true, true, false, true), WateringSampleAction::Delete);
    assert_eq!(watering_sample_action(true, true, true, true), WateringSampleAction::Delete);
}

#[test]
fn select_without_a_window_means_delete() {
    assert_eq!(watering_sample_action(false, false, true, false), WateringSampleAction::Delete);
    assert_eq!(watering_sample_action(false, false, true, true), WateringSampleAction::Advance);
}

#[test]
fn single_step_buttons_step_and_silence_waits() {
    assert_eq!(watering_sample_action(true, false, false, true), WateringSampleAction::StepUp);
    assert_eq!(watering_sample_action(false, true, false, true), WateringSampleAction::StepDown);
    assert_eq!(watering_sample_action(false, false, false, true), WateringSampleAction::Wait);
}

#[test]
fn first_press_seeds_the_default_window() {
    let mut p = Preferences::default();
    p.edit_watering_field(WateringField::EndHour, true);
    assert_eq!(
        p.watering,
        Some(WateringWindow { start_hour: 0, start_minute: 0, end_hour: 1, end_minute: 0 })
    );
}

#[test]
fn watering_edit_steps_the_active_field() {
    let mut p = Preferences::default();
    p.watering = Some(WateringWindow { start_hour: 7, start_minute: 30, end_hour: 8, end_minute: 0 });
    p.edit_watering_field(WateringField::StartHour, true);
    p.edit_watering_field(WateringField::StartMinute, false);
    p.edit_watering_field(WateringField::EndHour, false);
    p.edit_watering_field(WateringField::EndMinute, false);
    assert_eq!(
        p.watering,
        Some(WateringWindow { start_hour: 8, start_minute: 29, end_hour: 7, end_minute: 59 })
    );
}

#[test]
fn watering_edit_wraps_hours_and_minutes() {
    let mut p = Preferences::default();
    p.watering = Some(WateringWindow { start_hour: 23, start_minute: 59, end_hour: 0, end_minute: 0 });
    p.edit_watering_field(WateringField::StartHour, true);
    p.edit_watering_field(WateringField::StartMinute, true);
    p.edit_watering_field(WateringField::EndHour, false);
    p.edit_watering_field(WateringField::EndMinute, false);
    assert_eq!(
        p.watering,
        Some(WateringWindow { start_hour: 0, start_minute: 0, end_hour: 23, end_minute: 59 })
    );
}
