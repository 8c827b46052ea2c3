use gem_rs::alarm::{
    reconcile_reading, select_reading, smoke_latch_step, ActuatorState, SensorReading, SmokeLatch,
};
use gem_rs::preferences::{Preferences, WateringWindow};

fn reading(temperature_f: u8, humidity_pct: u8) -> SensorReading {
    SensorReading { temperature_f, humidity_pct, pressure_mbar: 1013 }
}

fn quiet(vent_open: bool) -> ActuatorState {
    ActuatorState { buzzer_on: false, sprinklers_on: false, vent_open }
}

#[test]
fn missing_reading_keeps_the_previous_one() {
    let previous = reading(72, 65);
    assert_eq!(select_reading(previous, None), previous);
    assert_eq!(select_reading(previous, Some(reading(90, 10))), reading(90, 10));
}

#[test]
fn in_range_reading_closes_vent_and_stops_sprinklers() {
    let p = Preferences::default();
    let act = reconcile_reading(&p, reading(72, 65));
    assert_eq!(act, quiet(false));
}

#[test]
fn hot_reading_opens_the_vent() {
    let p = Preferences::default();
    let act = reconcile_reading(&p, reading(95, 65));
    assert!(act.vent_open);
    assert!(!act.sprinklers_on);
}

#[test]
fn cold_reading_opens_the_vent() {
    let p = Preferences::default();
    let act = reconcile_reading(&p, reading(40, 65));
    assert!(act.vent_open);
}

#[test]
fn out_of_range_humidity_runs_the_sprinklers() {
    let p = Preferences::default();
    assert!(reconcile_reading(&p, reading(72, 20)).sprinklers_on);
    assert!(reconcile_reading(&p, reading(72, 90)).sprinklers_on);
}

#[test]
fn watering_window_overrides_the_humidity_decision() {
    let mut p = Preferences::default();
    p.watering = Some(WateringWindow { start_hour: 0, start_minute: 0, end_hour: 1, end_minute: 0 });
    p.date.hour = 0;
    p.date.minute = 30;
    // Humidity is inside its range, yet scheduled watering keeps the
    // sprinklers on.
    let act = reconcile_reading(&p, reading(72, 65));
    assert!(act.sprinklers_on);
}

#[test]
fn reconciliation_never_sounds_the_buzzer() {
    let p = Preferences::default();
    assert!(!reconcile_reading(&p, reading(120, 0)).buzzer_on);
}

#[test]
fn smoke_engages_the_latch_and_forces_the_outputs() {
    let mut latch = SmokeLatch::new();
    let mut act = quiet(true);
    smoke_latch_step(&mut latch, &mut act, true);
    assert!(latch.active);
    assert!(act.buzzer_on);
    assert!(act.sprinklers_on);
    assert!(!act.vent_open);
}

#[test]
fn clearing_smoke_restores_a_closed_vent() {
    let mut latch = SmokeLatch::new();
    let mut act = quiet(false);
    smoke_latch_step(&mut latch, &mut act, true);
    smoke_latch_step(&mut latch, &mut act, true);
    smoke_latch_step(&mut latch, &mut act, false);
    assert!(!latch.active);
    assert!(!act.buzzer_on);
    assert!(!act.sprinklers_on);
    // The vent was closed before the alarm: it stays closed, it is not
    // forced open.
    assert!(!act.vent_open);
}

#[test]
fn clearing_smoke_restores_an_open_vent() {
    let mut latch = SmokeLatch::new();
    let mut act = quiet(true);
    smoke_latch_step(&mut latch, &mut act, true);
    assert!(!act.vent_open);
    smoke_latch_step(&mut latch, &mut act, false);
    assert!(act.vent_open);
}

#[test]
fn quiet_pass_with_released_latch_changes_nothing() {
    let mut latch = SmokeLatch::new();
    let mut act = quiet(true);
    smoke_latch_step(&mut latch, &mut act, false);
    assert!(!latch.active);
    assert_eq!(act, quiet(true));
}
