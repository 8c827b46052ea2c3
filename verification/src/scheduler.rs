//! The cooperative polling scheduler: once per millisecond pass it ticks
//! the three cooldowns and emits at most one action.
//!
//! The clock cooldown fires first and advances the wall clock whatever
//! else happens in the pass. Buttons are polled in the fixed priority
//! order Up, Down, Select, so two buttons held in the same pass never
//! double-fire; a sensor poll is emitted only when no button action was.

use vstd::prelude::*;

use crate::clock::clock_succ;
use crate::preferences::Preferences;
use crate::timer::{CountDownTimer, SCREEN_BUTTON_DELAY, SENSOR_DELAY, TICK_TIME_DELAY};

verus! {

/// The single action a scheduler pass asks the control loop to take.
#[derive(Clone, Copy, Debug, PartialEq, Eq, Structural)]
pub enum RefreshAction {
    /// The Up button fired: move to the next screen.
    Up,
    /// The Down button fired: move to the previous screen.
    Down,
    /// The Select button fired: enter the current screen's edit mode.
    Select,
    /// The sensor cooldown elapsed: poll the sensor and actuate.
    Sensor,
    /// Nothing to do this pass.
    Idle,
}

/// A countdown one millisecond later: down one, stopping at zero.
pub open spec fn spec_countdown_after_tick(remaining: u16) -> u16 {
    if remaining > 0 {
        (remaining - 1) as u16
    } else {
        0
    }
}

/// The scheduler's decision for one pass, given the three button levels
/// and which cooldowns have elapsed: the first asserted button wins, in
/// Up, Down, Select order; a sensor poll happens only when no button
/// action fired; otherwise the pass is idle.
pub open spec fn spec_scheduled_action(
    up: bool,
    down: bool,
    select: bool,
    buttons_ready: bool,
    sensor_ready: bool,
) -> RefreshAction {
    if buttons_ready && up {
        RefreshAction::Up
    } else if buttons_ready && down {
        RefreshAction::Down
    } else if buttons_ready && select {
        RefreshAction::Select
    } else if sensor_ready {
        RefreshAction::Sensor
    } else {
        RefreshAction::Idle
    }
}

/// Buttons are handled in a fixed priority order: when the button
/// cooldown has elapsed, an asserted Up wins over everything else, an
/// asserted Down yields to Up alone, and Select fires only with both
/// other buttons released — never while Up is also held.
pub proof fn lemma_button_priority(up: bool, down: bool, select: bool, sensor_ready: bool)
    ensures
        up ==> spec_scheduled_action(up, down, select, true, sensor_ready) is Up,
        !up && down ==> spec_scheduled_action(up, down, select, true, sensor_ready) is Down,
        !up && !down && select ==> spec_scheduled_action(up, down, select, true, sensor_ready)
            is Select,
{
}

/// One scheduler pass. `up`, `down` and `select` are the sampled button
/// levels. The clock cooldown is ticked first and, when it elapses,
/// advances the clock by one second and restarts at [`TICK_TIME_DELAY`];
/// then the button and sensor cooldowns tick, the emitted action follows
/// [`spec_scheduled_action`], and the cooldown of the action that fired
/// restarts at its configured delay.
pub fn should_update(
    up: bool,
    down: bool,
    select: bool,
    preferences: &mut Preferences,
    button_cd: &mut CountDownTimer,
    sensor_cd: &mut CountDownTimer,
    time_cd: &mut CountDownTimer,
) -> (action: RefreshAction)
    requires
        old(time_cd).remaining() <= 1 ==> old(preferences).date.can_tick(),
    ensures
        action == spec_scheduled_action(
            up,
            down,
            select,
            old(button_cd).remaining() <= 1,
            old(sensor_cd).remaining() <= 1,
        ),
        *final(preferences) == if old(time_cd).remaining() <= 1 {
            Preferences { date: clock_succ(old(preferences).date), ..*old(preferences) }
        } else {
            *old(preferences)
        },
        final(time_cd).remaining() == if old(time_cd).remaining() <= 1 {
            TICK_TIME_DELAY
        } else {
            (old(time_cd).remaining() - 1) as u16
        },
        final(button_cd).remaining() == if action is Up || action is Down || action is Select {
            SCREEN_BUTTON_DELAY
        } else {
            spec_countdown_after_tick(old(button_cd).remaining())
        },
        final(sensor_cd).remaining() == if action is Sensor {
            SENSOR_DELAY
        } else {
            spec_countdown_after_tick(old(sensor_cd).remaining())
        },
{
    time_cd.tick();
    if time_cd.is_finished() {
        preferences.tick_time();
        time_cd.set_time(TICK_TIME_DELAY);
    }
    button_cd.tick();
    sensor_cd.tick();
    if button_cd.is_finished() {
        if up {
            button_cd.set_time(SCREEN_BUTTON_DELAY);
            return RefreshAction::Up;
        } else if down {
            button_cd.set_time(SCREEN_BUTTON_DELAY);
            return RefreshAction::Down;
        } else if select {
            button_cd.set_time(SCREEN_BUTTON_DELAY);
            return RefreshAction::Select;
        }
    }
    if sensor_cd.is_finished() {
        sensor_cd.set_time(SENSOR_DELAY);
        return RefreshAction::Sensor;
    }
    RefreshAction::Idle
}

} // verus!
