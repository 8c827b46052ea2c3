//! Screen navigation: five display screens in a fixed cyclic order, with
//! Up moving forward and Down moving backward.

use vstd::prelude::*;

verus! {

/// The five display screens, ordinals 0 through 4 in cycling order.
#[derive(Clone, Copy, Debug, PartialEq, Eq, Structural)]
pub enum Screen {
    Temperature,
    Humidity,
    Pressure,
    Date,
    WateringSchedule,
}

impl Screen {
    /// The screen's ordinal in the cycling order.
    pub open spec fn spec_index(self) -> int {
        match self {
            Screen::Temperature => 0,
            Screen::Humidity => 1,
            Screen::Pressure => 2,
            Screen::Date => 3,
            Screen::WateringSchedule => 4,
        }
    }

    /// The screen's ordinal in the cycling order.
    pub fn index(self) -> (i: u8)
        ensures
            i == self.spec_index(),
    {
        match self {
            Screen::Temperature => 0,
            Screen::Humidity => 1,
            Screen::Pressure => 2,
            Screen::Date => 3,
            Screen::WateringSchedule => 4,
        }
    }

    /// The screen with ordinal `i`.
    pub fn from_index(i: u8) -> (screen: Screen)
        requires
            i < 5,
        ensures
            screen.spec_index() == i,
    {
        match i {
            0 => Screen::Temperature,
            1 => Screen::Humidity,
            2 => Screen::Pressure,
            3 => Screen::Date,
            _ => Screen::WateringSchedule,
        }
    }

    /// Whether Select opens an edit session on this screen. The pressure
    /// display is read-only: Select is a no-op there.
    pub fn has_edit_mode(self) -> (editable: bool)
        ensures
            editable == !(self is Pressure),
    {
        match self {
            Screen::Pressure => false,
            _ => true,
        }
    }
}

/// The screen ordinal one step forward (`next`) or backward in the cycle.
pub open spec fn spec_next_screen(index: int, next: bool) -> int {
    if next {
        (index + 1) % 5
    } else {
        (index + 4) % 5
    }
}

/// Cycles through the screens: Up (`next`) moves forward, Down moves
/// backward, wrapping at the ends.
pub fn next_screen(current_screen_index: u8, next: bool) -> (index: u8)
    requires
        current_screen_index < 5,
    ensures
        index == spec_next_screen(current_screen_index as int, next),
        index < 5,
{
    (current_screen_index + if next {
        1u8
    } else {
        4u8
    }) % 5
}

} // verus!
