//! Interactive capture: deciding, from a device's event stream, which button
//! was just pressed or which analog axis just moved.
//!
//! The caller owns the device and the clock. It reports what opening and
//! polling the device gave, together with the time in milliseconds since the
//! capture was invoked, to a session, and carries out the action the session
//! answers with. A session thereby is the whole decision procedure of one
//! capture; it never waits and never touches a device.

use vstd::prelude::*;
use crate::error::{CaptureKind, Error, ErrorView};
use crate::event::InputEvent;

pub mod axis;
pub mod button;

pub use axis::AxisCapture;
pub use button::{ButtonCapture, Press};

verus! {

/// Horizontal D-pad axis.
pub const ABS_HAT0X: u16 = 16;

/// Vertical D-pad axis.
pub const ABS_HAT0Y: u16 = 17;

/// A capture gives up once more than this many milliseconds have passed
/// since it was invoked.
pub const DEADLINE_MILLIS: u64 = 30_000;

/// Pause after a failed read before the device is polled again.
pub const BACKOFF_MILLIS: u64 = 50;

/// What the caller reports to a session.
#[derive(Debug, PartialEq, Eq)]
pub enum CaptureInput {
    /// The device was opened; nothing has been read yet.
    Opened,
    /// The device could not be opened; holds the cause.
    OpenFailed(String),
    /// A poll returned these events, oldest first.
    Polled(Vec<InputEvent>),
    /// A poll failed; the failure is transient.
    ReadFailed,
    /// A requested sleep is over.
    Slept,
}

pub enum CaptureInputView {
    Opened,
    OpenFailed(Seq<char>),
    Polled(Seq<InputEvent>),
    ReadFailed,
    Slept,
}

impl View for CaptureInput {
    type V = CaptureInputView;

    open spec fn view(&self) -> CaptureInputView {
        match self {
            CaptureInput::Opened => CaptureInputView::Opened,
            CaptureInput::OpenFailed(cause) => CaptureInputView::OpenFailed(cause@),
            CaptureInput::Polled(events) => CaptureInputView::Polled(events@),
            CaptureInput::ReadFailed => CaptureInputView::ReadFailed,
            CaptureInput::Slept => CaptureInputView::Slept,
        }
    }
}

/// What a session asks its caller to do next.
#[derive(Debug, PartialEq, Eq)]
pub enum CaptureAction<T> {
    /// Read the events that the device has pending and report them.
    Poll,
    /// Sleep for this many milliseconds, then report `Slept`.
    Sleep(u64),
    /// The capture has ended with this result.
    Captured(T),
    /// The capture has ended with this failure.
    Failed(Error),
}

pub enum CaptureActionView<T> {
    Poll,
    Sleep(u64),
    Captured(T),
    Failed(ErrorView),
}

impl<T> View for CaptureAction<T> {
    type V = CaptureActionView<T>;

    open spec fn view(&self) -> CaptureActionView<T> {
        match self {
            CaptureAction::Poll => CaptureActionView::Poll,
            CaptureAction::Sleep(millis) => CaptureActionView::Sleep(*millis),
            CaptureAction::Captured(result) => CaptureActionView::Captured(*result),
            CaptureAction::Failed(error) => CaptureActionView::Failed(error@),
        }
    }
}

/// The deadline check made before every poll: poll, unless the deadline has
/// passed.
pub open spec fn poll_unless_expired<T>(kind: CaptureKind, elapsed_ms: u64) -> CaptureActionView<
    T,
> {
    if elapsed_ms > DEADLINE_MILLIS {
        CaptureActionView::Failed(ErrorView::CaptureTimeout(kind))
    } else {
        CaptureActionView::Poll
    }
}

/// The deadline check made before every poll.
pub fn check_deadline<T>(kind: CaptureKind, elapsed_ms: u64) -> (action: CaptureAction<T>)
    ensures
        action@ == poll_unless_expired::<T>(kind, elapsed_ms),
{
    if elapsed_ms > DEADLINE_MILLIS {
        CaptureAction::Failed(Error::CaptureTimeout(kind))
    } else {
        CaptureAction::Poll
    }
}

} // verus!
