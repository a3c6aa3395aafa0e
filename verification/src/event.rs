//! Raw key events, as plain values.
//!
//! The device layer reports each event as three numbers: a type, a code and
//! a value. The decoder reads only whether the event is a key event, which
//! transition it reports, and the code.

use vstd::prelude::*;
use crate::keys::{ev_key, key_event_type};

verus! {

/// Whether an event reports a key transition or anything else
/// (synchronisation markers, axis movement, and so on).
#[derive(Clone, Copy, Debug, PartialEq, Eq)]
pub enum EventCategory {
    /// A key changed state.
    Key,
    /// Any other kind of event; none of them carries barcode data.
    Other,
}

/// The three transitions a key reports during press, hold and release.
#[derive(Clone, Copy, Debug, PartialEq, Eq)]
pub enum Transition {
    /// The key was pressed.
    Down,
    /// The key was released.
    Up,
    /// The key is held and repeats.
    Repeat,
}

/// One event of the scanner, consumed once by the decoder.
#[derive(Clone, Copy, Debug, PartialEq, Eq)]
pub struct RawKeyEvent {
    /// Whether this is a key event.
    pub category: EventCategory,
    /// The transition the event reports.
    pub transition: Transition,
    /// The identifier of the key.
    pub code: u16,
}

/// The transition that an event value stands for: 1 is a press and 2 an
/// auto-repeat. The input subsystem reports a release as 0; every other value
/// is read as a release too, so that only the value 1 ever counts as a press.
pub open spec fn transition_of(value: i32) -> Transition {
    if value == 1 {
        Transition::Down
    } else if value == 2 {
        Transition::Repeat
    } else {
        Transition::Up
    }
}

/// The event that the three numbers of the device layer describe.
pub open spec fn raw_event(kind: u16, code: u16, value: i32) -> RawKeyEvent {
    RawKeyEvent {
        category: if kind == key_event_type() {
            EventCategory::Key
        } else {
            EventCategory::Other
        },
        transition: transition_of(value),
        code,
    }
}

/// Whether the decoder acts on the event at all: only key presses count.
pub open spec fn is_key_down(event: RawKeyEvent) -> bool {
    event.category == EventCategory::Key && event.transition == Transition::Down
}

impl RawKeyEvent {
    /// Classifies an event given by its type, code and value.
    pub fn from_raw(kind: u16, code: u16, value: i32) -> (event: RawKeyEvent)
        ensures
            event == raw_event(kind, code, value),
    {
        let category = if kind == ev_key() {
            EventCategory::Key
        } else {
            EventCategory::Other
        };
        let transition = if value == 1 {
            Transition::Down
        } else if value == 2 {
            Transition::Repeat
        } else {
            Transition::Up
        };
        RawKeyEvent { category, transition, code }
    }

    /// Whether the event is a key press, the only kind the decoder acts on.
    pub fn is_key_down(&self) -> (yes: bool)
        ensures
            yes == is_key_down(*self),
    {
        let key = match self.category {
            EventCategory::Key => true,
            EventCategory::Other => false,
        };
        let down = match self.transition {
            Transition::Down => true,
            Transition::Up => false,
            Transition::Repeat => false,
        };
        key && down
    }
}

} // verus!
