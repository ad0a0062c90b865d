//! Button capture: the next key press, or the next push of the D-pad into a
//! direction.

use vstd::prelude::*;
use crate::capture::{
    check_deadline,
    poll_unless_expired,
    CaptureAction,
    CaptureActionView,
    CaptureInput,
    CaptureInputView,
    ABS_HAT0X,
    ABS_HAT0Y,
    BACKOFF_MILLIS,
    DEADLINE_MILLIS,
};
use crate::error::{CaptureKind, Error, ErrorView};
use crate::event::{key_debug_name, key_name, EventKind, InputEvent, EV_ABS};

verus! {

/// Value of a key event that reports a press (0 is a release, 2 a repeat).
pub const KEY_PRESSED: i32 = 1;

/// A button press that a capture can report.
#[derive(Clone, Copy, Debug, PartialEq, Eq)]
pub enum Press {
    Key(u16),
    DpadLeft,
    DpadRight,
    DpadUp,
    DpadDown,
}

impl Press {
    /// Identifier of the pressed button.
    pub open spec fn identifier_spec(self) -> Seq<char> {
        match self {
            Press::Key(code) => key_debug_name(code),
            Press::DpadLeft => "BTN_DPAD_LEFT"@,
            Press::DpadRight => "BTN_DPAD_RIGHT"@,
            Press::DpadUp => "BTN_DPAD_UP"@,
            Press::DpadDown => "BTN_DPAD_DOWN"@,
        }
    }

    /// Identifier of the pressed button: the device layer's name for a key,
    /// a fixed name for each D-pad direction.
    pub fn identifier(&self) -> (name: String)
        ensures
            name@ == self.identifier_spec(),
    {
        match self {
            Press::Key(code) => key_name(*code),
            Press::DpadLeft => String::from_str("BTN_DPAD_LEFT"),
            Press::DpadRight => String::from_str("BTN_DPAD_RIGHT"),
            Press::DpadUp => String::from_str("BTN_DPAD_UP"),
            Press::DpadDown => String::from_str("BTN_DPAD_DOWN"),
        }
    }
}

/// Whether a D-pad axis that was last seen at `held` and now reports
/// `value` has just been pushed into a direction.
pub open spec fn new_deflection(held: i32, value: i32) -> bool {
    value != held && (value == -1 || value == 1)
}

/// The press that a D-pad axis reports on moving from `held` to `value`.
pub open spec fn deflection(held: i32, value: i32, negative: Press, positive: Press) -> Option<
    Press,
> {
    if new_deflection(held, value) {
        Some(
            if value < 0 {
                negative
            } else {
                positive
            },
        )
    } else {
        None
    }
}

/// Session state of a button capture: the value each D-pad axis was last
/// seen at, 0 while it rests.
#[derive(Clone, Copy, Debug, PartialEq, Eq)]
pub struct ButtonCapture {
    pub hat_x: i32,
    pub hat_y: i32,
}

impl ButtonCapture {
    /// State and report after one event.
    pub open spec fn after_event(self, event: InputEvent) -> (ButtonCapture, Option<Press>) {
        match event.kind_spec() {
            EventKind::Key(code) => (
                self,
                if event.value == KEY_PRESSED {
                    Some(Press::Key(code))
                } else {
                    None
                },
            ),
            EventKind::AbsAxis(code) => if code == ABS_HAT0X {
                (
                    ButtonCapture { hat_x: event.value, hat_y: self.hat_y },
                    deflection(self.hat_x, event.value, Press::DpadLeft, Press::DpadRight),
                )
            } else if code == ABS_HAT0Y {
                (
                    ButtonCapture { hat_x: self.hat_x, hat_y: event.value },
                    deflection(self.hat_y, event.value, Press::DpadUp, Press::DpadDown),
                )
            } else {
                (self, None)
            },
            EventKind::Other => (self, None),
        }
    }

    /// State and report after a batch of events: the first press wins and
    /// the events behind it are not looked at.
    pub open spec fn after_events(self, events: Seq<InputEvent>) -> (ButtonCapture, Option<Press>)
        decreases events.len(),
    {
        if events.len() == 0 {
            (self, None)
        } else {
            let (next, press) = self.after_event(events[0]);
            if press is Some {
                (next, press)
            } else {
                next.after_events(events.skip(1))
            }
        }
    }

    /// State and action after one report from the caller.
    pub open spec fn after_report(self, elapsed_ms: u64, input: CaptureInputView) -> (
        ButtonCapture,
        CaptureActionView<Press>,
    ) {
        match input {
            CaptureInputView::OpenFailed(cause) => (
                self,
                CaptureActionView::Failed(ErrorView::DeviceOpen(cause)),
            ),
            CaptureInputView::ReadFailed => (self, CaptureActionView::Sleep(BACKOFF_MILLIS)),
            CaptureInputView::Polled(events) => {
                let (next, press) = self.after_events(events);
                match press {
                    Some(found) => (next, CaptureActionView::Captured(found)),
                    None => (next, poll_unless_expired(CaptureKind::Button, elapsed_ms)),
                }
            },
            _ => (self, poll_unless_expired(CaptureKind::Button, elapsed_ms)),
        }
    }

    /// A fresh session: both D-pad axes at rest.
    pub fn new() -> (session: ButtonCapture)
        ensures
            session == (ButtonCapture { hat_x: 0, hat_y: 0 }),
    {
        ButtonCapture { hat_x: 0, hat_y: 0 }
    }

    /// Takes one event in and says whether it is a press.
    pub fn observe(&mut self, event: &InputEvent) -> (press: Option<Press>)
        ensures
            (*final(self), press) == old(self).after_event(*event),
    {
        match event.kind() {
            EventKind::Key(code) => {
                if event.value == KEY_PRESSED {
                    Some(Press::Key(code))
                } else {
                    None
                }
            },
            EventKind::AbsAxis(code) => {
                if code == ABS_HAT0X {
                    let held: i32 = self.hat_x;
                    self.hat_x = event.value;
                    direction(held, event.value, Press::DpadLeft, Press::DpadRight)
                } else if code == ABS_HAT0Y {
                    let held: i32 = self.hat_y;
                    self.hat_y = event.value;
                    direction(held, event.value, Press::DpadUp, Press::DpadDown)
                } else {
                    None
                }
            },
            EventKind::Other => None,
        }
    }

    /// Takes a batch of events in, oldest first, up to the first press.
    pub fn observe_all(&mut self, events: &Vec<InputEvent>) -> (press: Option<Press>)
        ensures
            (*final(self), press) == old(self).after_events(events@),
    {
        let mut i: usize = 0;
        assert(events@.skip(0) =~= events@);
        while i < events.len()
            invariant
                i <= events.len(),
                old(self).after_events(events@) == self.after_events(events@.skip(i as int)),
            decreases events.len() - i,
        {
            let press = self.observe(&events[i]);
            assert(events@.skip(i as int).skip(1) =~= events@.skip(i + 1));
            if press.is_some() {
                return press;
            }
            i += 1;
        }
        None
    }

    /// Moves the session on by one report from the caller, `elapsed_ms`
    /// milliseconds after the capture was invoked.
    pub fn advance(&mut self, elapsed_ms: u64, input: &CaptureInput) -> (action: CaptureAction<
        Press,
    >)
        ensures
            (*final(self), action@) == old(self).after_report(elapsed_ms, input@),
    {
        match input {
            CaptureInput::OpenFailed(cause) => CaptureAction::Failed(
                Error::DeviceOpen(cause.clone()),
            ),
            CaptureInput::ReadFailed => CaptureAction::Sleep(BACKOFF_MILLIS),
            CaptureInput::Polled(events) => {
                match self.observe_all(events) {
                    Some(press) => CaptureAction::Captured(press),
                    None => check_deadline(CaptureKind::Button, elapsed_ms),
                }
            },
            _ => check_deadline(CaptureKind::Button, elapsed_ms),
        }
    }
}

/// The press, if any, that a D-pad axis reports on moving from `held` to
/// `value`.
fn direction(held: i32, value: i32, negative: Press, positive: Press) -> (press: Option<Press>)
    ensures
        press == deflection(held, value, negative, positive),
{
    if value != held && value == -1 {
        Some(negative)
    } else if value != held && value == 1 {
        Some(positive)
    } else {
        None
    }
}

/// An event on a D-pad axis.
pub open spec fn dpad_event(axis: u16, value: i32) -> InputEvent {
    InputEvent { event_type: EV_ABS, code: axis, value }
}

/// A direction of the D-pad is reported when the axis moves into it and
/// not again while the axis stays there; a return to rest is never
/// reported, and after it the same direction is reported anew.
pub proof fn lemma_dpad_reports_new_presses_only(session: ButtonCapture, value: i32)
    ensures
        session.after_event(dpad_event(ABS_HAT0X, value)).0.hat_x == value,
        session.after_event(dpad_event(ABS_HAT0Y, value)).0.hat_y == value,
        session.after_event(dpad_event(ABS_HAT0X, value)).1 is Some <==> new_deflection(
            session.hat_x,
            value,
        ),
        session.after_event(dpad_event(ABS_HAT0Y, value)).1 is Some <==> new_deflection(
            session.hat_y,
            value,
        ),
        value == session.hat_x ==> session.after_event(dpad_event(ABS_HAT0X, value)) == (
            session,
            None::<Press>,
        ),
        value == session.hat_y ==> session.after_event(dpad_event(ABS_HAT0Y, value)) == (
            session,
            None::<Press>,
        ),
        value == 1 || value == -1 ==> {
            let rested = session.after_event(dpad_event(ABS_HAT0X, 0));
            &&& rested.1 is None
            &&& rested.0.after_event(dpad_event(ABS_HAT0X, value)).1 == Some(
                if value < 0 {
                    Press::DpadLeft
                } else {
                    Press::DpadRight
                },
            )
        },
        value == 1 || value == -1 ==> {
            let rested = session.after_event(dpad_event(ABS_HAT0Y, 0));
            &&& rested.1 is None
            &&& rested.0.after_event(dpad_event(ABS_HAT0Y, value)).1 == Some(
                if value < 0 {
                    Press::DpadUp
                } else {
                    Press::DpadDown
                },
            )
        },
{
}

/// The first press of a batch ends the scan: the events behind it change
/// neither the report nor the state. A batch without a press hands its
/// state on to the next batch.
pub proof fn lemma_first_press_wins(
    session: ButtonCapture,
    seen: Seq<InputEvent>,
    later: Seq<InputEvent>,
)
    ensures
        session.after_events(seen + later) == if session.after_events(seen).1 is Some {
            session.after_events(seen)
        } else {
            session.after_events(seen).0.after_events(later)
        },
    decreases seen.len(),
{
    if seen.len() == 0 {
        assert(seen + later =~= later);
    } else {
        assert((seen + later).skip(1) =~= seen.skip(1) + later);
        let (next, press) = session.after_event(seen[0]);
        if press is None {
            lemma_first_press_wins(next, seen.skip(1), later);
        }
    }
}

/// A button capture never waits without bound: it asks for a poll only
/// while the deadline has not passed, and for no pause but the short one
/// that follows a failed read.
pub proof fn lemma_button_capture_is_bounded(
    session: ButtonCapture,
    elapsed_ms: u64,
    input: CaptureInputView,
)
    ensures
        session.after_report(elapsed_ms, input).1 is Poll ==> elapsed_ms <= DEADLINE_MILLIS,
        session.after_report(elapsed_ms, input).1 matches CaptureActionView::Sleep(millis)
            ==> millis == BACKOFF_MILLIS && input is ReadFailed,
{
}

/// The deadline ends a button capture: once it has passed, a report that
/// brings no press is answered with a timeout, and a failed read with one
/// pause, after which the timeout follows.
pub proof fn lemma_deadline_ends_button_capture(
    session: ButtonCapture,
    elapsed_ms: u64,
    input: CaptureInputView,
)
    requires
        elapsed_ms > DEADLINE_MILLIS,
        !(input is OpenFailed),
        input matches CaptureInputView::Polled(events) ==> session.after_events(events).1 is None,
    ensures
        !(input is ReadFailed) ==> session.after_report(elapsed_ms, input).1
            == CaptureActionView::<Press>::Failed(ErrorView::CaptureTimeout(CaptureKind::Button)),
        input is ReadFailed ==> session.after_report(elapsed_ms, input) == (
            session,
            CaptureActionView::<Press>::Sleep(BACKOFF_MILLIS),
        ),
        session.after_report(elapsed_ms, CaptureInputView::Slept).1 == CaptureActionView::<
            Press,
        >::Failed(ErrorView::CaptureTimeout(CaptureKind::Button)),
{
}

} // verus!
