//! The modal field-edit sub-state-machines entered with Select: two-phase
//! range edits for temperature and humidity, the sequential date edit, and
//! the four-field watering-window edit with its delete gesture.
//!
//! Each machine consumes one button sample per step; the control loop owns
//! the sampling cadence and keeps the clock ticking between samples, so
//! editing never freezes wall time.

use vstd::prelude::*;

use crate::clock::{clock_succ, spec_days_in_month, ClockState};
use crate::preferences::{
    inclusive_iterator, spec_step, Bounds, Preferences, WateringWindow,
};

verus! {

/// Keeps the wall clock running during modal edits. Edit loops sample the
/// buttons every half second, and every other sample advances the clock by
/// one second, so editing never freezes wall time.
#[derive(Clone, Copy, Debug, PartialEq, Eq, Structural)]
pub struct EditClock {
    /// Whether the next pass is the one that advances the clock.
    pub tick_now: bool,
}

impl EditClock {
    /// A fresh edit session's cadence: the first sample does not tick.
    pub fn new() -> (cadence: EditClock)
        ensures
            !cadence.tick_now,
    {
        EditClock { tick_now: false }
    }

    /// One edit-loop sample: advances the clock by one second on every
    /// other call, starting with the second.
    pub fn pass(&mut self, prefs: &mut Preferences)
        requires
            old(self).tick_now ==> old(prefs).date.can_tick(),
        ensures
            *final(prefs) == if old(self).tick_now {
                Preferences { date: clock_succ(old(prefs).date), ..*old(prefs) }
            } else {
                *old(prefs)
            },
            final(self).tick_now == !old(self).tick_now,
    {
        if self.tick_now {
            prefs.tick_time();
        }
        self.tick_now = !self.tick_now;
    }
}

/// One press on a threshold bound: up or down by one, saturating at the
/// ends of the editable scale, 0 to 100.
pub open spec fn spec_saturating_step(value: int, up: bool) -> int {
    if up {
        if value < 100 {
            value + 1
        } else {
            value
        }
    } else {
        if value > 0 {
            value - 1
        } else {
            value
        }
    }
}

/// Steps a threshold bound up or down by one, saturating at 0 and 100.
pub fn saturating_step(value: u8, up: bool) -> (stepped: u8)
    requires
        value <= 100,
    ensures
        stepped == spec_saturating_step(value as int, up),
        stepped <= 100,
{
    if up {
        if value < 100 {
            value + 1
        } else {
            value
        }
    } else {
        if value > 0 {
            value - 1
        } else {
            value
        }
    }
}

/// A range edit with the active bound stepped: the lower bound during the
/// first phase, the higher during the second, the other untouched.
pub open spec fn spec_range_edit_step(bounds: Bounds, editing_lower: bool, up: bool) -> Bounds {
    if editing_lower {
        Bounds { low: spec_saturating_step(bounds.low as int, up) as u8, ..bounds }
    } else {
        Bounds { high: spec_saturating_step(bounds.high as int, up) as u8, ..bounds }
    }
}

/// Progress of a two-phase range edit: first the lower bound, then the
/// higher; the session is over once the second phase is selected away.
#[derive(Clone, Copy, Debug, PartialEq, Eq, Structural)]
pub struct RangeEditSession {
    pub editing_lower: bool,
    pub done: bool,
}

impl RangeEditSession {
    /// A fresh session, editing the lower bound.
    pub fn begin() -> (session: RangeEditSession)
        ensures
            session.editing_lower,
            !session.done,
    {
        RangeEditSession { editing_lower: true, done: false }
    }
}

/// One button sample of a two-phase range edit. Up and Down step the
/// active bound, saturating at the scale ends; Select — polled last, as
/// everywhere — moves from the lower bound to the higher and then ends the
/// session. The caller commits the range (swapping an illegal order) once
/// `done` holds.
pub fn range_edit_sample(
    bounds: &mut Bounds,
    session: &mut RangeEditSession,
    up: bool,
    down: bool,
    select: bool,
)
    requires
        !old(session).done,
        old(bounds).in_limits(),
    ensures
        *final(bounds) == if up {
            spec_range_edit_step(*old(bounds), old(session).editing_lower, true)
        } else if down {
            spec_range_edit_step(*old(bounds), old(session).editing_lower, false)
        } else {
            *old(bounds)
        },
        *final(session) == if !up && !down && select {
            RangeEditSession { editing_lower: false, done: !old(session).editing_lower }
        } else {
            *old(session)
        },
        final(bounds).in_limits(),
{
    if up {
        if session.editing_lower {
            bounds.low = saturating_step(bounds.low, true);
        } else {
            bounds.high = saturating_step(bounds.high, true);
        }
    } else if down {
        if session.editing_lower {
            bounds.low = saturating_step(bounds.low, false);
        } else {
            bounds.high = saturating_step(bounds.high, false);
        }
    } else if select {
        if session.editing_lower {
            session.editing_lower = false;
        } else {
            session.done = true;
        }
    }
}

/// The date fields, in the order the edit visits them.
#[derive(Clone, Copy, Debug, PartialEq, Eq, Structural)]
pub enum DateField {
    Minute,
    Hour,
    Day,
    Month,
    Year,
}

/// The field the date edit visits after `field`; `None` once the year —
/// the last field — is done.
pub fn next_date_field(field: DateField) -> (next: Option<DateField>)
    ensures
        next == match field {
            DateField::Minute => Some(DateField::Hour),
            DateField::Hour => Some(DateField::Day),
            DateField::Day => Some(DateField::Month),
            DateField::Month => Some(DateField::Year),
            DateField::Year => None::<DateField>,
        },
{
    match field {
        DateField::Minute => Some(DateField::Hour),
        DateField::Hour => Some(DateField::Day),
        DateField::Day => Some(DateField::Month),
        DateField::Month => Some(DateField::Year),
        DateField::Year => None,
    }
}

/// The clock with one date field stepped. Minute, hour, day and month wrap
/// inclusively within their ranges — the day within the current month's
/// length. The year never wraps: it only grows upward and floors at zero
/// on decrement.
pub open spec fn spec_date_field_step(c: ClockState, field: DateField, increment: bool) -> ClockState {
    match field {
        DateField::Minute => ClockState {
            minute: spec_step(c.minute as int, 0, 59, increment) as u8,
            ..c
        },
        DateField::Hour => ClockState { hour: spec_step(c.hour as int, 0, 23, increment) as u8, ..c },
        DateField::Day => ClockState {
            day: spec_step(
                c.day as int,
                1,
                spec_days_in_month(c.month as int, c.year as int),
                increment,
            ) as u8,
            ..c
        },
        DateField::Month => ClockState { month: spec_step(c.month as int, 1, 12, increment) as u8, ..c },
        DateField::Year => ClockState {
            year: if increment {
                (c.year + 1) as u16
            } else if c.year > 0 {
                (c.year - 1) as u16
            } else {
                0
            },
            ..c
        },
    }
}

impl Preferences {
    /// Applies one Up or Down press to the date field being edited.
    /// Stepping the month can leave the day beyond the new month's length;
    /// [`Preferences::finish_date_edit`] clamps it when the edit ends.
    pub fn edit_date_field(&mut self, field: DateField, increment: bool)
        requires
            old(self).date.loose_wf(),
            field is Day ==> old(self).date.day <= spec_days_in_month(
                old(self).date.month as int,
                old(self).date.year as int,
            ),
            field is Year && increment ==> old(self).date.year < u16::MAX,
        ensures
            final(self).date == spec_date_field_step(old(self).date, field, increment),
            final(self).date.loose_wf(),
            final(self).temperature == old(self).temperature,
            final(self).humidity == old(self).humidity,
            final(self).watering == old(self).watering,
    {
        match field {
            DateField::Minute => {
                self.date.minute = inclusive_iterator(self.date.minute, 0, 59, increment);
            },
            DateField::Hour => {
                self.date.hour = inclusive_iterator(self.date.hour, 0, 23, increment);
            },
            DateField::Day => {
                let days = self.get_days_in_month();
                self.date.day = inclusive_iterator(self.date.day, 1, days, increment);
            },
            DateField::Month => {
                self.date.month = inclusive_iterator(self.date.month, 1, 12, increment);
            },
            DateField::Year => {
                if increment {
                    self.date.year += 1;
                } else if self.date.year > 0 {
                    self.date.year -= 1;
                }
            },
        }
    }

    /// Ends a date edit: if month changes left the day beyond the now
    /// current month's length, the day is clamped down to that length,
    /// restoring the full clock invariant.
    pub fn finish_date_edit(&mut self)
        requires
            old(self).date.loose_wf(),
        ensures
            final(self).date == (ClockState {
                day: if old(self).date.day > spec_days_in_month(
                    old(self).date.month as int,
                    old(self).date.year as int,
                ) {
                    spec_days_in_month(old(self).date.month as int, old(self).date.year as int) as u8
                } else {
                    old(self).date.day
                },
                ..old(self).date
            }),
            final(self).date.wf(),
            final(self).temperature == old(self).temperature,
            final(self).humidity == old(self).humidity,
            final(self).watering == old(self).watering,
    {
        let days = self.get_days_in_month();
        if self.date.day > days {
            self.date.day = days;
        }
    }
}

/// The watering-window fields, in the order the edit visits them.
#[derive(Clone, Copy, Debug, PartialEq, Eq, Structural)]
pub enum WateringField {
    StartHour,
    StartMinute,
    EndHour,
    EndMinute,
}

/// The field the watering edit visits after `field`; `None` once the end
/// minute — the last field — is done.
pub fn next_watering_field(field: WateringField) -> (next: Option<WateringField>)
    ensures
        next == match field {
            WateringField::StartHour => Some(WateringField::StartMinute),
            WateringField::StartMinute => Some(WateringField::EndHour),
            WateringField::EndHour => Some(WateringField::EndMinute),
            WateringField::EndMinute => None::<WateringField>,
        },
{
    match field {
        WateringField::StartHour => Some(WateringField::StartMinute),
        WateringField::StartMinute => Some(WateringField::EndHour),
        WateringField::EndHour => Some(WateringField::EndMinute),
        WateringField::EndMinute => None,
    }
}

/// What one button sample asks of the watering edit.
#[derive(Clone, Copy, Debug, PartialEq, Eq, Structural)]
pub enum WateringSampleAction {
    /// Up and Down held together: delete the schedule and end the edit.
    Delete,
    /// Step the active field upward.
    StepUp,
    /// Step the active field downward.
    StepDown,
    /// Select: move to the next field, or commit after the last.
    Advance,
    /// No button asserted: keep sampling.
    Wait,
}

/// The watering edit's reading of one button sample: both step buttons
/// together are the delete gesture; otherwise Up, then Down, then Select
/// in the usual priority order — though Select with no window configured
/// also deletes, since there is nothing to commit.
pub open spec fn spec_watering_sample_action(
    up: bool,
    down: bool,
    select: bool,
    has_window: bool,
) -> WateringSampleAction {
    if up && down {
        WateringSampleAction::Delete
    } else if up {
        WateringSampleAction::StepUp
    } else if down {
        WateringSampleAction::StepDown
    } else if select {
        if has_window {
            WateringSampleAction::Advance
        } else {
            WateringSampleAction::Delete
        }
    } else {
        WateringSampleAction::Wait
    }
}

/// Decides what one button sample asks of the watering edit; see
/// [`spec_watering_sample_action`].
pub fn watering_sample_action(up: bool, down: bool, select: bool, has_window: bool) -> (action:
    WateringSampleAction)
    ensures
        action == spec_watering_sample_action(up, down, select, has_window),
{
    if up && down {
        WateringSampleAction::Delete
    } else if up {
        WateringSampleAction::StepUp
    } else if down {
        WateringSampleAction::StepDown
    } else if select {
        if has_window {
            WateringSampleAction::Advance
        } else {
            WateringSampleAction::Delete
        }
    } else {
        WateringSampleAction::Wait
    }
}

/// The window with one field stepped: hours wrap within 0 to 23, minutes
/// within 0 to 59.
pub open spec fn spec_watering_field_step(
    w: WateringWindow,
    field: WateringField,
    increment: bool,
) -> WateringWindow {
    match field {
        WateringField::StartHour => WateringWindow {
            start_hour: spec_step(w.start_hour as int, 0, 23, increment) as u8,
            ..w
        },
        WateringField::StartMinute => WateringWindow {
            start_minute: spec_step(w.start_minute as int, 0, 59, increment) as u8,
            ..w
        },
        WateringField::EndHour => WateringWindow {
            end_hour: spec_step(w.end_hour as int, 0, 23, increment) as u8,
            ..w
        },
        WateringField::EndMinute => WateringWindow {
            end_minute: spec_step(w.end_minute as int, 0, 59, increment) as u8,
            ..w
        },
    }
}

impl Preferences {
    /// Applies one Up or Down press to the watering field being edited.
    /// With no window configured yet the press seeds the default window
    /// instead of stepping a field.
    pub fn edit_watering_field(&mut self, field: WateringField, increment: bool)
        requires
            old(self).watering matches Some(w) ==> w.wf(),
        ensures
            final(self).watering == match old(self).watering {
                Some(w) => Some(spec_watering_field_step(w, field, increment)),
                None => Some(WateringWindow::spec_default_window()),
            },
            final(self).watering matches Some(w) ==> w.wf(),
            final(self).temperature == old(self).temperature,
            final(self).humidity == old(self).humidity,
            final(self).date == old(self).date,
    {
        match self.watering {
            None => {
                self.set_default_watering_time();
            },
            Some(w) => {
                let stepped = match field {
                    WateringField::StartHour => WateringWindow {
                        start_hour: inclusive_iterator(w.start_hour, 0, 23, increment),
                        ..w
                    },
                    WateringField::StartMinute => WateringWindow {
                        start_minute: inclusive_iterator(w.start_minute, 0, 59, increment),
                        ..w
                    },
                    WateringField::EndHour => WateringWindow {
                        end_hour: inclusive_iterator(w.end_hour, 0, 23, increment),
                        ..w
                    },
                    WateringField::EndMinute => WateringWindow {
                        end_minute: inclusive_iterator(w.end_minute, 0, 59, increment),
                        ..w
                    },
                };
                self.watering = Some(stepped);
            },
        }
    }
}

} // verus!
