//! Countdown cooldowns that rate-limit the scheduler's concerns: button
//! sampling, sensor polling, and the once-per-second clock tick.

use vstd::prelude::*;

verus! {

/// The delay in milliseconds between accepting button presses.
pub const SCREEN_BUTTON_DELAY: u16 = 500;

/// The delay in milliseconds between clock ticks (one wall-clock second).
pub const TICK_TIME_DELAY: u16 = 1000;

/// The delay in milliseconds between sensor polls.
pub const SENSOR_DELAY: u16 = 2000;

/// A millisecond countdown. `tick` is called once per scheduler pass and
/// decrements the remaining time, saturating at zero; the associated action
/// may fire exactly when the countdown has reached zero.
pub struct CountDownTimer {
    target_ms: u16,
}

impl CountDownTimer {
    /// The milliseconds left before this countdown is finished.
    pub closed spec fn remaining(&self) -> u16 {
        self.target_ms
    }

    /// Creates a countdown with `target_ms` milliseconds to wait.
    pub fn new(target_ms: u16) -> (t: CountDownTimer)
        ensures
            t.remaining() == target_ms,
    {
        Self { target_ms }
    }

    /// Counts one millisecond down, stopping at zero.
    pub fn tick(&mut self)
        ensures
            final(self).remaining() == if old(self).remaining() > 0 {
                (old(self).remaining() - 1) as u16
            } else {
                0u16
            },
    {
        if self.target_ms > 0 {
            self.target_ms -= 1;
        }
    }

    /// Restarts the countdown at `ms` milliseconds.
    pub fn set_time(&mut self, ms: u16)
        ensures
            final(self).remaining() == ms,
    {
        self.target_ms = ms;
    }

    /// True exactly when the countdown has reached zero.
    pub fn is_finished(&self) -> (finished: bool)
        ensures
            finished == (self.remaining() == 0),
    {
        self.target_ms == 0
    }
}

} // verus!
