//! Raw input events and how an event is classified.

use vstd::prelude::*;

verus! {

/// Event type of key and button state changes.
pub const EV_KEY: u16 = 1;

/// Event type of movement on an absolute axis.
pub const EV_ABS: u16 = 3;

/// One event as the device layer reports it, without its timestamp.
#[derive(Clone, Copy, Debug, PartialEq, Eq)]
pub struct InputEvent {
    pub event_type: u16,
    pub code: u16,
    pub value: i32,
}

/// What an event is about: a key, an absolute axis, or anything else.
#[derive(Clone, Copy, Debug, PartialEq, Eq)]
pub enum EventKind {
    Key(u16),
    AbsAxis(u16),
    Other,
}

/// The text that `evdev` prints for a key code: the code's symbolic name,
/// such as `BTN_SOUTH`, where `evdev` knows one.
pub uninterp spec fn key_debug_name(code: u16) -> Seq<char>;

/// The text that `evdev` prints for the code of an absolute axis: the
/// code's symbolic name, such as `ABS_X`, where `evdev` knows one.
pub uninterp spec fn abs_axis_debug_name(code: u16) -> Seq<char>;

/// Builds the event with `evdev::InputEvent::new` and asks
/// `evdev::InputEvent::kind` what it is about. The contract claims what
/// that method's match on the event type shows: type `EV_KEY` gives a key
/// and type `EV_ABS` an absolute axis, each with the event's code; every
/// other kind is handed on as `Other`.
#[verifier::external_body]
fn evdev_kind(event: &InputEvent) -> (kind: EventKind)
    ensures
        kind == event.kind_spec(),
{
    match evdev::InputEvent::new(evdev::EventType(event.event_type), event.code, event.value).kind() {
        evdev::InputEventKind::Key(key) => EventKind::Key(key.code()),
        evdev::InputEventKind::AbsAxis(axis) => EventKind::AbsAxis(axis.0),
        _ => EventKind::Other,
    }
}

/// Formats `evdev::Key::new(code)` with `Debug`. The contract claims that
/// the text is a function of the code alone: `evdev` picks it by a match on
/// the code. Which text belongs to which code is not stated.
#[verifier::external_body]
fn evdev_key_name(code: u16) -> (name: String)
    ensures
        name@ == key_debug_name(code),
{
    format!("{:?}", evdev::Key::new(code))
}

/// Formats `evdev::AbsoluteAxisType(code)` with `Debug`. The contract
/// claims that the text is a function of the code alone: `evdev` picks it
/// by a match on the code. Which text belongs to which code is not stated.
#[verifier::external_body]
fn evdev_abs_axis_name(code: u16) -> (name: String)
    ensures
        name@ == abs_axis_debug_name(code),
{
    format!("{:?}", evdev::AbsoluteAxisType(code))
}

impl InputEvent {
    /// What the event is about, by its type and code.
    pub open spec fn kind_spec(&self) -> EventKind {
        if self.event_type == EV_KEY {
            EventKind::Key(self.code)
        } else if self.event_type == EV_ABS {
            EventKind::AbsAxis(self.code)
        } else {
            EventKind::Other
        }
    }

    /// Classifies the event by its type and code.
    pub fn kind(&self) -> (kind: EventKind)
        ensures
            kind == self.kind_spec(),
    {
        evdev_kind(self)
    }
}

/// Identifier of a key or button, as the device layer names it.
pub fn key_name(code: u16) -> (name: String)
    ensures
        name@ == key_debug_name(code),
{
    evdev_key_name(code)
}

/// Identifier of an absolute axis, as the device layer names it.
pub fn abs_axis_name(code: u16) -> (name: String)
    ensures
        name@ == abs_axis_debug_name(code),
{
    evdev_abs_axis_name(code)
}

} // verus!
