//! Wall-clock date and time, tracked by counting elapsed seconds.
//!
//! The controller has no hardware clock: once per second the scheduler
//! advances a [`ClockState`] by one second, cascading carries through
//! minute, hour, day (against the current month's length), month and year.

use vstd::prelude::*;

verus! {

/// Calendar date and time of day. `second`, `minute` and `hour` count from
/// zero; `day` and `month` count from one, as a user reads them.
#[derive(Clone, Copy, Debug, PartialEq, Eq, Structural)]
pub struct ClockState {
    pub second: u8,
    pub minute: u8,
    pub hour: u8,
    pub day: u8,
    pub month: u8,
    pub year: u16,
}

/// The Gregorian leap-year rule: divisible by 4 and (not divisible by 100
/// or divisible by 400).
pub open spec fn spec_is_leap_year(year: int) -> bool {
    year % 4 == 0 && (year % 100 != 0 || year % 400 == 0)
}

/// Days in a month: 28 or 29 for February by the leap rule, 30 for April,
/// June, September and November, 31 otherwise.
pub open spec fn spec_days_in_month(month: int, year: int) -> int {
    if month == 2 {
        if spec_is_leap_year(year) {
            29
        } else {
            28
        }
    } else if month == 4 || month == 6 || month == 9 || month == 11 {
        30
    } else {
        31
    }
}

impl ClockState {
    /// Every field within its static bound. The day may transiently exceed
    /// the current month's length while the user is editing the date; the
    /// full invariant [`ClockState::wf`] is restored when the edit commits.
    pub open spec fn loose_wf(self) -> bool {
        &&& self.second < 60
        &&& self.minute < 60
        &&& self.hour < 24
        &&& 1 <= self.month <= 12
        &&& 1 <= self.day <= 31
    }

    /// A normalized clock: every field within its bound, the day within the
    /// current month's length.
    pub open spec fn wf(self) -> bool {
        &&& self.loose_wf()
        &&& self.day <= spec_days_in_month(self.month as int, self.year as int)
    }

    /// Advancing is possible unless the year counter itself would overflow,
    /// which can only happen in the very last second of the largest
    /// representable year.
    pub open spec fn can_tick(self) -> bool {
        &&& self.loose_wf()
        &&& (self.year < u16::MAX || !(self.second == 59 && self.minute == 59 && self.hour == 23
            && self.month == 12 && self.day == 31))
    }

    /// Seconds elapsed since the midnight that began this date.
    pub open spec fn time_of_day(self) -> int {
        self.hour * 3600 + self.minute * 60 + self.second
    }

    /// The fixed startup epoch: midnight, January 1st, 2000.
    pub open spec fn spec_epoch() -> ClockState {
        ClockState { second: 0, minute: 0, hour: 0, day: 1, month: 1, year: 2000 }
    }
}

/// Carries an out-of-range day into the following months until it fits,
/// re-evaluating the month length after every month step.
pub open spec fn spec_roll_date(day: int, month: int, year: int) -> (int, int, int)
    decreases day,
{
    if 1 <= month <= 12 && day > spec_days_in_month(month, year) {
        if month < 12 {
            spec_roll_date(day - spec_days_in_month(month, year), month + 1, year)
        } else {
            spec_roll_date(day - spec_days_in_month(month, year), 1, year + 1)
        }
    } else {
        (day, month, year)
    }
}

/// The clock one second later: the successor state of `advance_one_second`.
pub open spec fn clock_succ(c: ClockState) -> ClockState {
    if c.second < 59 {
        ClockState { second: (c.second + 1) as u8, ..c }
    } else if c.minute < 59 {
        ClockState { second: 0, minute: (c.minute + 1) as u8, ..c }
    } else if c.hour < 23 {
        ClockState { second: 0, minute: 0, hour: (c.hour + 1) as u8, ..c }
    } else {
        let (day, month, year) = spec_roll_date(c.day + 1, c.month as int, c.year as int);
        ClockState {
            second: 0,
            minute: 0,
            hour: 0,
            day: day as u8,
            month: month as u8,
            year: year as u16,
        }
    }
}

/// The clock after `n` further seconds.
pub open spec fn advance_n(c: ClockState, n: nat) -> ClockState
    decreases n,
{
    if n == 0 {
        c
    } else {
        clock_succ(advance_n(c, (n - 1) as nat))
    }
}

/// The same time of day on the next calendar date.
pub open spec fn date_succ(c: ClockState) -> ClockState {
    if c.day < spec_days_in_month(c.month as int, c.year as int) {
        ClockState { day: (c.day + 1) as u8, ..c }
    } else if c.month < 12 {
        ClockState { day: 1, month: (c.month + 1) as u8, ..c }
    } else {
        ClockState { day: 1, month: 1, year: (c.year + 1) as u16, ..c }
    }
}

/// February has 29 days exactly in leap years: years divisible by 4 and
/// (not divisible by 100 or divisible by 400).
pub proof fn lemma_february_length(year: int)
    ensures
        (spec_days_in_month(2, year) == 29) <==> (year % 4 == 0 && (year % 100 != 0 || year % 400
            == 0)),
{
}

/// Anywhere before the last second of the day, a tick keeps the date and
/// moves the time of day forward by one.
proof fn lemma_succ_same_day(c: ClockState)
    requires
        c.wf(),
        c.time_of_day() < 86399,
    ensures
        clock_succ(c).wf(),
        clock_succ(c).day == c.day,
        clock_succ(c).month == c.month,
        clock_succ(c).year == c.year,
        clock_succ(c).time_of_day() == c.time_of_day() + 1,
{
}

/// At the last second of a date, the successor is midnight of the next
/// calendar date.
proof fn lemma_succ_midnight(c: ClockState)
    requires
        c.wf(),
        c.time_of_day() == 86399,
        !(c.month == 12 && c.day == 31 && c.year == u16::MAX),
    ensures
        clock_succ(c).wf(),
        clock_succ(c).second == 0,
        clock_succ(c).minute == 0,
        clock_succ(c).hour == 0,
        clock_succ(c).day == date_succ(c).day,
        clock_succ(c).month == date_succ(c).month,
        clock_succ(c).year == date_succ(c).year,
{
    assert(c.hour == 23 && c.minute == 59 && c.second == 59);
    let dim = spec_days_in_month(c.month as int, c.year as int);
    reveal_with_fuel(spec_roll_date, 2);
    if c.day < dim {
        assert(spec_roll_date(c.day + 1, c.month as int, c.year as int) == (
            c.day + 1,
            c.month as int,
            c.year as int,
        ));
    } else {
        assert(c.day == dim);
    }
}

/// Advancing by `n` seconds within one date leaves the date unchanged and
/// moves the time of day forward by `n`.
proof fn lemma_advance_within_day(c: ClockState, n: nat)
    requires
        c.wf(),
        c.time_of_day() + n <= 86399,
    ensures
        advance_n(c, n).wf(),
        advance_n(c, n).day == c.day,
        advance_n(c, n).month == c.month,
        advance_n(c, n).year == c.year,
        advance_n(c, n).time_of_day() == c.time_of_day() + n,
    decreases n,
{
    if n > 0 {
        lemma_advance_within_day(c, (n - 1) as nat);
        lemma_succ_same_day(advance_n(c, (n - 1) as nat));
    }
}

/// Advancing by `m + n` seconds is advancing by `m`, then by `n`.
proof fn lemma_advance_add(c: ClockState, m: nat, n: nat)
    ensures
        advance_n(c, m + n) == advance_n(advance_n(c, m), n),
    decreases n,
{
    if n > 0 {
        lemma_advance_add(c, m, (n - 1) as nat);
        assert((m + n - 1) as nat == m + ((n - 1) as nat));
    }
}

/// Within their bounds, hour, minute and second are determined by the
/// second-of-day count.
proof fn lemma_time_of_day_determines(a: ClockState, b: ClockState)
    requires
        a.loose_wf(),
        b.loose_wf(),
        a.time_of_day() == b.time_of_day(),
    ensures
        a.second == b.second,
        a.minute == b.minute,
        a.hour == b.hour,
{
}

/// A tick keeps the clock normalized: starting from a well-formed state,
/// no field exceeds its bound after the advance completes, and the day
/// still fits the then-current month.
pub proof fn lemma_tick_preserves_normalization(c: ClockState)
    requires
        c.wf(),
        c.can_tick(),
    ensures
        clock_succ(c).wf(),
{
    if c.time_of_day() < 86399 {
        lemma_succ_same_day(c);
    } else {
        lemma_succ_midnight(c);
    }
}

/// Advancing a well-formed clock 86400 times — one full day of seconds —
/// yields the same time of day on the next calendar date, across month and
/// year boundaries and February in leap and common years alike.
pub proof fn lemma_full_day_advances_one_date(c: ClockState)
    requires
        c.wf(),
        !(c.month == 12 && c.day == 31 && c.year == u16::MAX),
    ensures
        advance_n(c, 86400) == date_succ(c),
{
    let t = c.time_of_day();
    assert(0 <= t <= 86399);
    let n1 = (86399 - t) as nat;
    lemma_advance_within_day(c, n1);
    let a = advance_n(c, n1);
    lemma_succ_midnight(a);
    let b = clock_succ(a);
    assert(advance_n(c, n1 + 1) == b) by {
        assert((n1 + 1 - 1) as nat == n1);
    }
    lemma_advance_add(c, n1 + 1, t as nat);
    lemma_advance_within_day(b, t as nat);
    let d = advance_n(b, t as nat);
    assert(advance_n(c, 86400) == d) by {
        assert(n1 + 1 + t == 86400);
    }
    lemma_time_of_day_determines(d, date_succ(c));
    assert(d == date_succ(c));
}

/// Whether `year` is a leap year.
pub fn is_leap_year(year: u16) -> (leap: bool)
    ensures
        leap == spec_is_leap_year(year as int),
{
    year % 4 == 0 && (year % 100 != 0 || year % 400 == 0)
}

/// The number of days in `month` of `year`.
pub fn days_in_month(month: u8, year: u16) -> (days: u8)
    ensures
        days == spec_days_in_month(month as int, year as int),
        28 <= days <= 31,
{
    match month {
        2 => {
            if is_leap_year(year) {
                29
            } else {
                28
            }
        },
        4 | 6 | 9 | 11 => 30,
        _ => 31,
    }
}

impl ClockState {
    /// The startup value of the clock: midnight, January 1st, 2000.
    pub fn epoch() -> (c: ClockState)
        ensures
            c == ClockState::spec_epoch(),
            c.wf(),
    {
        ClockState { second: 0, minute: 0, hour: 0, day: 1, month: 1, year: 2000 }
    }

    /// Advances the clock by exactly one second, cascading the carry through
    /// minute, hour, day, month and year. The day carry re-evaluates the
    /// month's length after every month step, so a day left too large by an
    /// interrupted edit still rolls to a real date.
    pub fn advance_one_second(&mut self)
        requires
            old(self).can_tick(),
        ensures
            *final(self) == clock_succ(*old(self)),
    {
        self.second += 1;
        if self.second < 60 {
            return ;
        }
        self.second = 0;
        self.minute += 1;
        if self.minute < 60 {
            return ;
        }
        self.minute = 0;
        self.hour += 1;
        if self.hour < 24 {
            return ;
        }
        self.hour = 0;
        self.day += 1;
        let ghost rolled = spec_roll_date(
            old(self).day + 1,
            old(self).month as int,
            old(self).year as int,
        );
        loop
            invariant
                1 <= self.month <= 12,
                1 <= self.day <= 32,
                self.day >= 29 ==> self.month == old(self).month && self.year == old(self).year,
                self.month == 12 && self.day == 32 ==> self.year < u16::MAX,
                spec_roll_date(self.day as int, self.month as int, self.year as int) == rolled,
                self.second == 0 && self.minute == 0 && self.hour == 0,
                self.year == old(self).year || self.year == old(self).year + 1,
            ensures
                self.day <= spec_days_in_month(self.month as int, self.year as int),
                spec_roll_date(self.day as int, self.month as int, self.year as int) == rolled,
                self.second == 0 && self.minute == 0 && self.hour == 0,
            decreases self.day,
        {
            let dim = days_in_month(self.month, self.year);
            if self.day <= dim {
                break ;
            }
            self.day -= dim;
            if self.month < 12 {
                self.month += 1;
            } else {
                self.month = 1;
                self.year += 1;
            }
        }
        proof {
            assert(rolled == (self.day as int, self.month as int, self.year as int));
        }
    }
}

} // verus!
