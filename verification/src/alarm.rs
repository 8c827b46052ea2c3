//! Sensor/actuator reconciliation and the smoke-alarm latch.
//!
//! The smoke check has absolute priority: while smoke is present the
//! controller holds the sprinklers on, the roof vent closed and the buzzer
//! sounding, and when the smoke clears it restores the vent to the state
//! it held before the alarm — not necessarily open. Only then is a fresh
//! reading compared against the thresholds and the watering schedule.

use vstd::prelude::*;

use crate::preferences::Preferences;

verus! {

/// One sensor reading, in the units the controller works with.
#[derive(Clone, Copy, Debug, PartialEq, Eq, Structural)]
pub struct SensorReading {
    /// Temperature, degrees Fahrenheit.
    pub temperature_f: u8,
    /// Relative humidity, percent.
    pub humidity_pct: u8,
    /// Atmospheric pressure, millibars.
    pub pressure_mbar: u16,
}

/// The reading to act on this cycle: a fresh one when the poll delivered
/// data, otherwise the previous reading, retained and reused until a read
/// succeeds again.
pub fn select_reading(previous: SensorReading, fresh: Option<SensorReading>) -> (reading:
    SensorReading)
    ensures
        reading == match fresh {
            Some(f) => f,
            None => previous,
        },
{
    match fresh {
        Some(f) => f,
        None => previous,
    }
}

/// The on/off states of the three actuators.
#[derive(Clone, Copy, Debug, PartialEq, Eq, Structural)]
pub struct ActuatorState {
    pub buzzer_on: bool,
    pub sprinklers_on: bool,
    pub vent_open: bool,
}

/// The actuator settings a fresh reading demands when no smoke is present:
/// the vent opens exactly when the temperature leaves its acceptable
/// range, and the sprinklers run when the humidity leaves its range or the
/// clock is inside the watering window — the schedule is checked after the
/// humidity so an in-range pass never suppresses scheduled watering.
pub open spec fn spec_reconcile(prefs: Preferences, reading: SensorReading) -> ActuatorState {
    ActuatorState {
        buzzer_on: false,
        sprinklers_on: !prefs.humidity.spec_contains(reading.humidity_pct as int)
            || prefs.spec_is_watering_time(),
        vent_open: !prefs.temperature.spec_contains(reading.temperature_f as int),
    }
}

/// Decides the actuator settings for a fresh reading; see
/// [`spec_reconcile`].
pub fn reconcile_reading(prefs: &Preferences, reading: SensorReading) -> (actuators: ActuatorState)
    ensures
        actuators == spec_reconcile(*prefs, reading),
{
    let vent_open = !prefs.is_within_temperature(reading.temperature_f);
    let mut sprinklers_on = !prefs.is_within_humidity(reading.humidity_pct);
    if prefs.is_watering_time() {
        sprinklers_on = true;
    }
    ActuatorState { buzzer_on: false, sprinklers_on, vent_open }
}

/// The smoke-alarm latch. Once smoke is seen the latch engages and records
/// the roof vent's state at that moment; it re-checks the smoke input
/// every pass and releases only when the input clears.
#[derive(Clone, Copy, Debug, PartialEq, Eq, Structural)]
pub struct SmokeLatch {
    /// Whether the alarm is currently latched.
    pub active: bool,
    /// The vent state held immediately before the alarm engaged.
    pub saved_vent_open: bool,
}

impl SmokeLatch {
    /// A released latch, as at startup.
    pub fn new() -> (latch: SmokeLatch)
        ensures
            !latch.active,
    {
        SmokeLatch { active: false, saved_vent_open: false }
    }
}

/// One pass of the smoke latch against a sampled smoke input. Smoke
/// engages the latch — recording the vent state on the pass that engages
/// it — and commands sprinklers on, vent closed, buzzer on. A clear input
/// releases an engaged latch, silencing the buzzer, stopping the
/// sprinklers and restoring the vent to its recorded state; with the latch
/// already released it changes nothing.
pub open spec fn spec_latch_step(latch: SmokeLatch, actuators: ActuatorState, smoke: bool) -> (
    SmokeLatch,
    ActuatorState,
) {
    if smoke {
        (
            if latch.active {
                latch
            } else {
                SmokeLatch { active: true, saved_vent_open: actuators.vent_open }
            },
            ActuatorState { buzzer_on: true, sprinklers_on: true, vent_open: false },
        )
    } else {
        if latch.active {
            (
                SmokeLatch { active: false, ..latch },
                ActuatorState {
                    buzzer_on: false,
                    sprinklers_on: false,
                    vent_open: latch.saved_vent_open,
                },
            )
        } else {
            (latch, actuators)
        }
    }
}

/// Advances the latch and the actuators by one smoke sample; see
/// [`spec_latch_step`].
pub fn smoke_latch_step(latch: &mut SmokeLatch, actuators: &mut ActuatorState, smoke: bool)
    ensures
        *final(latch) == spec_latch_step(*old(latch), *old(actuators), smoke).0,
        *final(actuators) == spec_latch_step(*old(latch), *old(actuators), smoke).1,
{
    if smoke {
        if !latch.active {
            latch.active = true;
            latch.saved_vent_open = actuators.vent_open;
        }
        actuators.buzzer_on = true;
        actuators.sprinklers_on = true;
        actuators.vent_open = false;
    } else if latch.active {
        latch.active = false;
        actuators.buzzer_on = false;
        actuators.sprinklers_on = false;
        actuators.vent_open = latch.saved_vent_open;
    }
}

/// The latch and actuators after a whole run of smoke samples, first
/// sample first.
pub open spec fn spec_latch_run(
    latch: SmokeLatch,
    actuators: ActuatorState,
    smokes: Seq<bool>,
) -> (SmokeLatch, ActuatorState)
    decreases smokes.len(),
{
    if smokes.len() == 0 {
        (latch, actuators)
    } else {
        let stepped = spec_latch_step(latch, actuators, smokes[0]);
        spec_latch_run(stepped.0, stepped.1, smokes.subrange(1, smokes.len() as int))
    }
}

/// Through any run of samples, an engaged latch keeps the vent state it
/// recorded when it first engaged, and whenever the latch is released the
/// vent is back in that original state.
proof fn lemma_latch_run_keeps_vent(
    latch: SmokeLatch,
    actuators: ActuatorState,
    smokes: Seq<bool>,
    vent0: bool,
)
    requires
        latch.active ==> latch.saved_vent_open == vent0,
        !latch.active ==> actuators.vent_open == vent0,
    ensures
        spec_latch_run(latch, actuators, smokes).0.active ==> spec_latch_run(
            latch,
            actuators,
            smokes,
        ).0.saved_vent_open == vent0,
        !spec_latch_run(latch, actuators, smokes).0.active ==> spec_latch_run(
            latch,
            actuators,
            smokes,
        ).1.vent_open == vent0,
    decreases smokes.len(),
{
    if smokes.len() > 0 {
        let stepped = spec_latch_step(latch, actuators, smokes[0]);
        lemma_latch_run_keeps_vent(
            stepped.0,
            stepped.1,
            smokes.subrange(1, smokes.len() as int),
            vent0,
        );
    }
}

/// A run whose last sample is clear ends with the latch released.
proof fn lemma_latch_run_clears(latch: SmokeLatch, actuators: ActuatorState, smokes: Seq<bool>)
    requires
        smokes.len() > 0,
        smokes.last() == false,
    ensures
        !spec_latch_run(latch, actuators, smokes).0.active,
    decreases smokes.len(),
{
    let stepped = spec_latch_step(latch, actuators, smokes[0]);
    let rest = smokes.subrange(1, smokes.len() as int);
    if smokes.len() > 1 {
        assert(rest.last() == smokes.last());
        lemma_latch_run_clears(stepped.0, stepped.1, rest);
    } else {
        assert(rest.len() == 0);
        assert(spec_latch_run(stepped.0, stepped.1, rest) == stepped);
    }
}

/// However smoke comes and goes, once the last sample is clear the latch
/// is released and the roof vent is back in the state it held before the
/// alarm: a vent that was closed stays closed, one that was open reopens.
pub proof fn lemma_smoke_latch_restores_vent(
    latch: SmokeLatch,
    actuators: ActuatorState,
    smokes: Seq<bool>,
)
    requires
        !latch.active,
        smokes.len() > 0,
        smokes.last() == false,
    ensures
        !spec_latch_run(latch, actuators, smokes).0.active,
        spec_latch_run(latch, actuators, smokes).1.vent_open == actuators.vent_open,
{
    lemma_latch_run_clears(latch, actuators, smokes);
    lemma_latch_run_keeps_vent(latch, actuators, smokes, actuators.vent_open);
}

} // verus!
