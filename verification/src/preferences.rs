//! User-configured preferences: acceptable temperature and humidity
//! ranges, the current date and time, and the optional daily watering
//! window.
//!
//! Edits may transiently break the `low <= high` ordering of a range; the
//! ordering is restored when the edit commits, by swapping the two values
//! rather than rejecting them.

use vstd::prelude::*;

use crate::clock::{clock_succ, days_in_month, spec_days_in_month, ClockState};

verus! {

/// An inclusive range of acceptable sensor values, in whole units
/// (degrees Fahrenheit or percent).
#[derive(Clone, Copy, Debug, PartialEq, Eq, Structural)]
pub struct Bounds {
    pub low: u8,
    pub high: u8,
}

impl Bounds {
    /// Both endpoints within the editable scale of 0 to 100.
    pub open spec fn in_limits(self) -> bool {
        self.low <= 100 && self.high <= 100
    }

    /// The invariant restored whenever an edit commits.
    pub open spec fn ordered(self) -> bool {
        self.low <= self.high
    }

    /// Inclusive membership in the range.
    pub open spec fn spec_contains(self, value: int) -> bool {
        self.low <= value <= self.high
    }
}

/// `(h1, m1)` is no later than `(h2, m2)` in hour-then-minute order.
pub open spec fn lex_time_le(h1: int, m1: int, h2: int, m2: int) -> bool {
    h1 < h2 || (h1 == h2 && m1 <= m2)
}

/// The daily interval during which the sprinklers are forced on.
/// Containment is decided by hour-then-minute lexicographic comparison of
/// the clock against the two endpoints, both ends inclusive.
#[derive(Clone, Copy, Debug, PartialEq, Eq, Structural)]
pub struct WateringWindow {
    pub start_hour: u8,
    pub start_minute: u8,
    pub end_hour: u8,
    pub end_minute: u8,
}

impl WateringWindow {
    /// Hours and minutes within their clock bounds.
    pub open spec fn wf(self) -> bool {
        &&& self.start_hour < 24
        &&& self.end_hour < 24
        &&& self.start_minute < 60
        &&& self.end_minute < 60
    }

    /// The invariant restored whenever an edit commits: the window starts
    /// no later than it ends.
    pub open spec fn ordered(self) -> bool {
        lex_time_le(
            self.start_hour as int,
            self.start_minute as int,
            self.end_hour as int,
            self.end_minute as int,
        )
    }

    /// Whether the clock time `(hour, minute)` lies within the window.
    pub open spec fn spec_contains(self, hour: int, minute: int) -> bool {
        lex_time_le(self.start_hour as int, self.start_minute as int, hour, minute)
            && lex_time_le(hour, minute, self.end_hour as int, self.end_minute as int)
    }

    /// The seed value offered the first time the watering schedule is
    /// edited: midnight to one o'clock.
    pub open spec fn spec_default_window() -> WateringWindow {
        WateringWindow { start_hour: 0, start_minute: 0, end_hour: 1, end_minute: 0 }
    }
}

/// A window whose start lies after its end commits with the two endpoints
/// exchanged, as a deliberate correction.
pub open spec fn spec_commit_window(w: WateringWindow) -> WateringWindow {
    if !w.ordered() {
        WateringWindow {
            start_hour: w.end_hour,
            start_minute: w.end_minute,
            end_hour: w.start_hour,
            end_minute: w.start_minute,
        }
    } else {
        w
    }
}

/// A range whose low end exceeds its high end commits with the two values
/// exchanged.
pub open spec fn spec_commit_bounds(b: Bounds) -> Bounds {
    if b.low > b.high {
        Bounds { low: b.high, high: b.low }
    } else {
        b
    }
}

/// The consumer-selected settings and the clock they are measured against.
#[derive(Clone, Copy, Debug, PartialEq, Eq, Structural)]
pub struct Preferences {
    /// Acceptable temperature range, degrees Fahrenheit.
    pub temperature: Bounds,
    /// Acceptable relative humidity range, percent.
    pub humidity: Bounds,
    /// The current date and time.
    pub date: ClockState,
    /// The daily watering window; `None` means no schedule is configured.
    pub watering: Option<WateringWindow>,
}

/// The value of the stepper used for the date and watering-window fields:
/// it wraps inclusively, so incrementing past `max` yields `min` and
/// decrementing past `min` yields `max`.
pub open spec fn spec_step(value: int, min: int, max: int, increment: bool) -> int {
    if increment {
        if value >= max {
            min
        } else {
            value + 1
        }
    } else {
        if value <= min {
            max
        } else {
            value - 1
        }
    }
}

/// Steps `value` forwards or backwards through the inclusive range
/// `min ..= max`, wrapping at both ends.
pub fn inclusive_iterator(value: u8, min: u8, max: u8, increment: bool) -> (stepped: u8)
    requires
        min <= value <= max,
    ensures
        stepped == spec_step(value as int, min as int, max as int, increment),
        min <= stepped <= max,
{
    if increment {
        if value >= max {
            min
        } else {
            value + 1
        }
    } else {
        if value <= min {
            max
        } else {
            value - 1
        }
    }
}

/// One increment followed by one decrement — or the reverse — returns
/// every in-range value to itself, and the stepper wraps at both ends:
/// incrementing at `max` yields `min`, decrementing at `min` yields `max`.
pub proof fn lemma_stepper_round_trip(v: int, min: int, max: int)
    requires
        min <= v <= max,
    ensures
        spec_step(spec_step(v, min, max, true), min, max, false) == v,
        spec_step(spec_step(v, min, max, false), min, max, true) == v,
        spec_step(max, min, max, true) == min,
        spec_step(min, min, max, false) == max,
{
}

/// Committing a range edit restores `low <= high` while preserving the
/// pair of entered values: an illegal order is corrected by swapping,
/// never by clamping or rejecting.
pub proof fn lemma_commit_bounds_orders_and_preserves(b: Bounds)
    ensures
        spec_commit_bounds(b).ordered(),
        set![spec_commit_bounds(b).low, spec_commit_bounds(b).high] =~= set![b.low, b.high],
{
}

/// Committing a watering-window edit restores start-before-end in
/// hour-then-minute order while preserving the two entered endpoints.
pub proof fn lemma_commit_window_orders_and_preserves(w: WateringWindow)
    ensures
        spec_commit_window(w).ordered(),
        set![
            (spec_commit_window(w).start_hour, spec_commit_window(w).start_minute),
            (spec_commit_window(w).end_hour, spec_commit_window(w).end_minute),
        ] =~= set![(w.start_hour, w.start_minute), (w.end_hour, w.end_minute)],
{
}

impl Default for Preferences {
    /// The startup settings: 60 to 80 degrees, 60 to 70 percent humidity,
    /// the clock at its epoch, and no watering schedule.
    fn default() -> (prefs: Preferences)
        ensures
            prefs.temperature == (Bounds { low: 60, high: 80 }),
            prefs.humidity == (Bounds { low: 60, high: 70 }),
            prefs.date == ClockState::spec_epoch(),
            prefs.watering is None,
    {
        Preferences {
            temperature: Bounds { low: 60, high: 80 },
            humidity: Bounds { low: 60, high: 70 },
            date: ClockState::epoch(),
            watering: None,
        }
    }
}

impl Preferences {
    /// Whether the clock's current hour and minute fall within the
    /// configured watering window; false when no window is configured.
    pub open spec fn spec_is_watering_time(self) -> bool {
        match self.watering {
            Some(w) => w.spec_contains(self.date.hour as int, self.date.minute as int),
            None => false,
        }
    }

    /// Advances the owned clock by one second.
    pub fn tick_time(&mut self)
        requires
            old(self).date.can_tick(),
        ensures
            final(self).date == clock_succ(old(self).date),
            final(self).temperature == old(self).temperature,
            final(self).humidity == old(self).humidity,
            final(self).watering == old(self).watering,
    {
        self.date.advance_one_second();
    }

    /// The number of days in the clock's current month.
    pub fn get_days_in_month(&self) -> (days: u8)
        ensures
            days == spec_days_in_month(self.date.month as int, self.date.year as int),
            28 <= days <= 31,
    {
        days_in_month(self.date.month, self.date.year)
    }

    /// The day of month one step forwards or backwards from today,
    /// wrapping within the current month's length.
    pub fn change_days(&self, increment: bool) -> (day: u8)
        requires
            self.date.wf(),
        ensures
            day == spec_step(
                self.date.day as int,
                1,
                spec_days_in_month(self.date.month as int, self.date.year as int),
                increment,
            ),
    {
        let days: u8 = self.get_days_in_month();
        inclusive_iterator(self.date.day, 1, days, increment)
    }

    /// Whether `value` lies within the acceptable temperature range.
    pub fn is_within_temperature(&self, value: u8) -> (within: bool)
        ensures
            within == self.temperature.spec_contains(value as int),
    {
        self.temperature.low <= value && value <= self.temperature.high
    }

    /// Whether `value` lies within the acceptable humidity range.
    pub fn is_within_humidity(&self, value: u8) -> (within: bool)
        ensures
            within == self.humidity.spec_contains(value as int),
    {
        self.humidity.low <= value && value <= self.humidity.high
    }

    /// Whether the sprinklers should be forced on right now because the
    /// clock is inside the configured watering window.
    pub fn is_watering_time(&self) -> (watering: bool)
        ensures
            watering == self.spec_is_watering_time(),
    {
        match self.watering {
            Some(w) => {
                (w.start_hour < self.date.hour || (w.start_hour == self.date.hour
                    && w.start_minute <= self.date.minute)) && (self.date.hour < w.end_hour || (
                self.date.hour == w.end_hour && self.date.minute <= w.end_minute))
            },
            None => false,
        }
    }

    /// Seeds the watering window with its default value, midnight to one
    /// o'clock, used when editing starts with no schedule configured.
    pub fn set_default_watering_time(&mut self)
        ensures
            final(self).watering == Some(WateringWindow::spec_default_window()),
            final(self).temperature == old(self).temperature,
            final(self).humidity == old(self).humidity,
            final(self).date == old(self).date,
    {
        self.watering = Some(
            WateringWindow { start_hour: 0, start_minute: 0, end_hour: 1, end_minute: 0 },
        );
    }

    /// Ends a temperature edit: if the user left `low > high`, the two
    /// values are swapped so the range invariant holds again.
    pub fn commit_temperature_edit(&mut self)
        ensures
            final(self).temperature == spec_commit_bounds(old(self).temperature),
            final(self).humidity == old(self).humidity,
            final(self).date == old(self).date,
            final(self).watering == old(self).watering,
    {
        if self.temperature.low > self.temperature.high {
            let t = self.temperature.low;
            self.temperature.low = self.temperature.high;
            self.temperature.high = t;
        }
    }

    /// Ends a humidity edit: if the user left `low > high`, the two values
    /// are swapped so the range invariant holds again.
    pub fn commit_humidity_edit(&mut self)
        ensures
            final(self).humidity == spec_commit_bounds(old(self).humidity),
            final(self).temperature == old(self).temperature,
            final(self).date == old(self).date,
            final(self).watering == old(self).watering,
    {
        if self.humidity.low > self.humidity.high {
            let t = self.humidity.low;
            self.humidity.low = self.humidity.high;
            self.humidity.high = t;
        }
    }

    /// Ends a watering-schedule edit. With `remove` the window is cleared
    /// regardless of its value — the delete gesture and deleting an
    /// unconfigured schedule both land here. Otherwise a window whose
    /// start lies after its end is corrected by swapping the endpoints.
    pub fn commit_watering_edit(&mut self, remove: bool)
        requires
            remove || old(self).watering is Some,
        ensures
            final(self).watering == if remove {
                None
            } else {
                Some(spec_commit_window(old(self).watering->Some_0))
            },
            final(self).temperature == old(self).temperature,
            final(self).humidity == old(self).humidity,
            final(self).date == old(self).date,
    {
        if remove {
            self.watering = None;
        } else {
            match self.watering {
                Some(w) => {
                    if w.start_hour > w.end_hour || (w.start_hour == w.end_hour && w.start_minute
                        > w.end_minute) {
                        self.watering = Some(
                            WateringWindow {
                                start_hour: w.end_hour,
                                start_minute: w.end_minute,
                                end_hour: w.start_hour,
                                end_minute: w.start_minute,
                            },
                        );
                    }
                },
                None => {},
            }
        }
    }
}

} // verus!
