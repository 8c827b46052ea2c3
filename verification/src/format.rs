//! Pure projections of the models to display text: zero-padded two-digit
//! fields for the clock, the calendar date and the watering window.
//!
//! The target display takes short fixed-width lines; every formatter here
//! states the exact character sequence it produces, so line lengths are
//! known to the caller.

use vstd::prelude::*;
use vstd::string::StringExecFns;

use crate::clock::ClockState;
use crate::preferences::{Preferences, WateringWindow};

verus! {

/// The decimal digit character for `d`, which must be 0 through 9.
pub open spec fn spec_digit_char(d: int) -> char {
    if d == 0 {
        '0'
    } else if d == 1 {
        '1'
    } else if d == 2 {
        '2'
    } else if d == 3 {
        '3'
    } else if d == 4 {
        '4'
    } else if d == 5 {
        '5'
    } else if d == 6 {
        '6'
    } else if d == 7 {
        '7'
    } else if d == 8 {
        '8'
    } else {
        '9'
    }
}

/// `n` as exactly two decimal digits, zero-padded.
pub open spec fn spec_two_digits(n: int) -> Seq<char> {
    seq![spec_digit_char(n / 10), spec_digit_char(n % 10)]
}

/// `n` as decimal digits, most significant first, without padding.
pub open spec fn spec_decimal(n: int) -> Seq<char>
    decreases n,
{
    if n < 10 {
        seq![spec_digit_char(n)]
    } else {
        spec_decimal(n / 10) + seq![spec_digit_char(n % 10)]
    }
}

/// The clock's time of day as `HH:MM:SS`.
pub open spec fn spec_clock_text(c: ClockState) -> Seq<char> {
    spec_two_digits(c.hour as int) + seq![':'] + spec_two_digits(c.minute as int) + seq![':']
        + spec_two_digits(c.second as int)
}

/// The clock's date as `DD/MM/YYYY`, with the year unpadded.
pub open spec fn spec_date_text(c: ClockState) -> Seq<char> {
    spec_two_digits(c.day as int) + seq!['/'] + spec_two_digits(c.month as int) + seq!['/']
        + spec_decimal(c.year as int)
}

/// The watering window as `HH:MM - HH:MM`, start first.
pub open spec fn spec_window_text(w: WateringWindow) -> Seq<char> {
    spec_two_digits(w.start_hour as int) + seq![':'] + spec_two_digits(w.start_minute as int)
        + seq![' ', '-', ' '] + spec_two_digits(w.end_hour as int) + seq![':'] + spec_two_digits(
        w.end_minute as int,
    )
}

/// The one-character string for the digit `d`.
fn digit_str(d: u8) -> (s: &'static str)
    requires
        d < 10,
    ensures
        s@ == seq![spec_digit_char(d as int)],
{
    proof {
        reveal_strlit("0");
        reveal_strlit("1");
        reveal_strlit("2");
        reveal_strlit("3");
        reveal_strlit("4");
        reveal_strlit("5");
        reveal_strlit("6");
        reveal_strlit("7");
        reveal_strlit("8");
        reveal_strlit("9");
    }
    let s: &'static str = match d {
        0 => "0",
        1 => "1",
        2 => "2",
        3 => "3",
        4 => "4",
        5 => "5",
        6 => "6",
        7 => "7",
        8 => "8",
        _ => "9",
    };
    proof {
        assert(s@ =~= seq![spec_digit_char(d as int)]);
    }
    s
}

/// Appends `num` to `text` as exactly two digits, zero-padded below ten.
fn append_two_digits(text: &mut String, num: u8)
    requires
        num < 100,
    ensures
        final(text)@ == old(text)@ + spec_two_digits(num as int),
{
    if num < 10 {
        text.append(digit_str(0));
        text.append(digit_str(num));
    } else {
        text.append(digit_str(num / 10));
        text.append(digit_str(num % 10));
    }
    proof {
        assert(text@ =~= old(text)@ + spec_two_digits(num as int));
    }
}

/// Appends `n` to `text` in decimal, most significant digit first.
fn append_decimal(text: &mut String, n: u16)
    ensures
        final(text)@ == old(text)@ + spec_decimal(n as int),
    decreases n,
{
    if n < 10 {
        text.append(digit_str(n as u8));
    } else {
        append_decimal(text, n / 10);
        text.append(digit_str((n % 10) as u8));
    }
    proof {
        assert(text@ =~= old(text)@ + spec_decimal(n as int));
    }
}

/// Pads a number below one hundred to two digits with a leading zero.
pub fn pad_number(num: u8) -> (padded: String)
    requires
        num < 100,
    ensures
        padded@ == spec_two_digits(num as int),
{
    let mut padded = String::new();
    append_two_digits(&mut padded, num);
    proof {
        assert(padded@ =~= spec_two_digits(num as int));
    }
    padded
}

impl Preferences {
    /// The date and time as two display lines: `HH:MM:SS` and
    /// `DD/MM/YYYY`, every field but the year zero-padded to two digits.
    pub fn get_date_formatted(&self) -> (lines: (String, String))
        requires
            self.date.loose_wf(),
        ensures
            lines.0@ == spec_clock_text(self.date),
            lines.1@ == spec_date_text(self.date),
    {
        proof {
            reveal_strlit(":");
            reveal_strlit("/");
        }
        let mut time = String::new();
        append_two_digits(&mut time, self.date.hour);
        time.append(":");
        append_two_digits(&mut time, self.date.minute);
        time.append(":");
        append_two_digits(&mut time, self.date.second);

        let mut date = String::new();
        append_two_digits(&mut date, self.date.day);
        date.append("/");
        append_two_digits(&mut date, self.date.month);
        date.append("/");
        append_decimal(&mut date, self.date.year);

        proof {
            assert(time@ =~= spec_clock_text(self.date));
            assert(date@ =~= spec_date_text(self.date));
        }
        (time, date)
    }

    /// The watering schedule as a display line: `HH:MM - HH:MM` with the
    /// start first, or `None` when no schedule is configured.
    pub fn format_watering_time(&self) -> (line: String)
        requires
            self.watering matches Some(w) ==> w.wf(),
        ensures
            line@ == match self.watering {
                Some(w) => spec_window_text(w),
                None => "None"@,
            },
    {
        match self.watering {
            Some(w) => {
                proof {
                    reveal_strlit(":");
                    reveal_strlit(" - ");
                }
                let mut line = String::new();
                append_two_digits(&mut line, w.start_hour);
                line.append(":");
                append_two_digits(&mut line, w.start_minute);
                line.append(" - ");
                append_two_digits(&mut line, w.end_hour);
                line.append(":");
                append_two_digits(&mut line, w.end_minute);
                proof {
                    assert(line@ =~= spec_window_text(w));
                }
                line
            },
            None => {
                "None".to_owned()
            },
        }
    }
}

} // verus!
