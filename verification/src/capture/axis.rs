//! Axis capture: the next analog axis that moves clearly away from where it
//! rested during a short calibration window.

use std::collections::HashMap;
use vstd::prelude::*;
use crate::capture::{
    check_deadline,
    poll_unless_expired,
    CaptureAction,
    CaptureActionView,
    CaptureInput,
    CaptureInputView,
    ABS_HAT0X,
    ABS_HAT0Y,
    BACKOFF_MILLIS,
    DEADLINE_MILLIS,
};
use crate::error::{CaptureKind, Error, ErrorView};
use crate::event::{EventKind, InputEvent};

verus! {

/// An axis capture spends this many milliseconds recording where the axes
/// rest before it looks for movement.
pub const CALIBRATION_MILLIS: u64 = 500;

/// Resting value assumed for an axis that calibration never saw.
pub const NEUTRAL_BASELINE: i32 = 128;

/// An axis has moved once it is further than this from its baseline: about a
/// quarter of an eight-bit range.
pub const AXIS_THRESHOLD: i32 = 60;

/// Whether an absolute axis belongs to the D-pad. Those axes are left to
/// button capture.
pub open spec fn is_dpad_axis(code: u16) -> bool {
    code == ABS_HAT0X || code == ABS_HAT0Y
}

/// The analog axis that an event reports on, if it reports on one.
pub open spec fn analog_axis(event: InputEvent) -> Option<u16> {
    match event.kind_spec() {
        EventKind::AbsAxis(code) => if is_dpad_axis(code) {
            None
        } else {
            Some(code)
        },
        _ => None,
    }
}

/// Baseline table after one event of the calibration window.
pub open spec fn calibrate_step(baseline: Map<u16, i32>, event: InputEvent) -> Map<u16, i32> {
    match analog_axis(event) {
        Some(code) => baseline.insert(code, event.value),
        None => baseline,
    }
}

/// Baseline table after a batch of events of the calibration window: for
/// each analog axis the value it reported last.
pub open spec fn calibrated(baseline: Map<u16, i32>, events: Seq<InputEvent>) -> Map<u16, i32>
    decreases events.len(),
{
    if events.len() == 0 {
        baseline
    } else {
        calibrate_step(calibrated(baseline, events.drop_last()), events.last())
    }
}

/// Resting value of an axis: what calibration recorded, else neutral.
pub open spec fn baseline_of(baseline: Map<u16, i32>, code: u16) -> int {
    if baseline.dom().contains(code) {
        baseline[code] as int
    } else {
        NEUTRAL_BASELINE as int
    }
}

/// Distance between two axis values.
pub open spec fn distance(a: int, b: int) -> int {
    if a >= b {
        a - b
    } else {
        b - a
    }
}

/// The axis that an event shows to have moved, if it shows one.
pub open spec fn moved_axis(baseline: Map<u16, i32>, event: InputEvent) -> Option<u16> {
    match analog_axis(event) {
        Some(code) => if distance(event.value as int, baseline_of(baseline, code))
            > AXIS_THRESHOLD {
            Some(code)
        } else {
            None
        },
        None => None,
    }
}

/// The axis that the first qualifying event of a batch shows to have moved.
pub open spec fn first_moved_axis(baseline: Map<u16, i32>, events: Seq<InputEvent>) -> Option<u16>
    decreases events.len(),
{
    if events.len() == 0 {
        None
    } else {
        match moved_axis(baseline, events[0]) {
            Some(code) => Some(code),
            None => first_moved_axis(baseline, events.skip(1)),
        }
    }
}

/// Session state of an axis capture.
pub struct AxisCapture {
    calibrating: bool,
    baseline: HashMap<u16, i32>,
}

pub struct AxisCaptureView {
    /// Whether the session is still in its calibration window.
    pub calibrating: bool,
    /// Resting value recorded for each analog axis seen so far.
    pub baseline: Map<u16, i32>,
}

impl View for AxisCapture {
    type V = AxisCaptureView;

    closed spec fn view(&self) -> AxisCaptureView {
        AxisCaptureView { calibrating: self.calibrating, baseline: self.baseline@ }
    }
}

impl AxisCaptureView {
    /// State and action after one report from the caller.
    ///
    /// While calibrating, every batch goes into the baseline table and is
    /// followed by a pause, and the deadline is not looked at. The first
    /// question of how to go on that comes at or after the end of the window
    /// ends the calibration. From then on a batch is searched for movement,
    /// and the deadline is checked before every poll.
    pub open spec fn after_report(self, elapsed_ms: u64, input: CaptureInputView) -> (
        AxisCaptureView,
        CaptureActionView<u16>,
    ) {
        match input {
            CaptureInputView::OpenFailed(cause) => (
                self,
                CaptureActionView::Failed(ErrorView::DeviceOpen(cause)),
            ),
            CaptureInputView::ReadFailed => (self, CaptureActionView::Sleep(BACKOFF_MILLIS)),
            CaptureInputView::Polled(events) => if self.calibrating {
                (
                    AxisCaptureView {
                        calibrating: true,
                        baseline: calibrated(self.baseline, events),
                    },
                    CaptureActionView::Sleep(BACKOFF_MILLIS),
                )
            } else {
                match first_moved_axis(self.baseline, events) {
                    Some(code) => (self, CaptureActionView::Captured(code)),
                    None => (self, poll_unless_expired(CaptureKind::Axis, elapsed_ms)),
                }
            },
            _ => if self.calibrating && elapsed_ms < CALIBRATION_MILLIS {
                (self, CaptureActionView::Poll)
            } else {
                (
                    AxisCaptureView { calibrating: false, baseline: self.baseline },
                    poll_unless_expired(CaptureKind::Axis, elapsed_ms),
                )
            },
        }
    }
}

impl AxisCapture {
    /// A fresh session: calibrating, with nothing recorded.
    pub fn new() -> (session: AxisCapture)
        ensures
            session@.calibrating,
            session@.baseline == Map::<u16, i32>::empty(),
    {
        AxisCapture { calibrating: true, baseline: HashMap::new() }
    }

    /// Whether the session is still in its calibration window.
    pub fn is_calibrating(&self) -> (calibrating: bool)
        ensures
            calibrating == self@.calibrating,
    {
        self.calibrating
    }

    /// Resting value of an axis: what calibration recorded, else neutral.
    pub fn baseline(&self, code: u16) -> (value: i32)
        ensures
            value == baseline_of(self@.baseline, code),
    {
        broadcast use vstd::std_specs::hash::group_hash_axioms;

        match self.baseline.get(&code) {
            Some(value) => *value,
            None => NEUTRAL_BASELINE,
        }
    }

    /// Records where the analog axes rest, from a batch of events.
    pub fn calibrate(&mut self, events: &Vec<InputEvent>)
        ensures
            final(self)@.calibrating == old(self)@.calibrating,
            final(self)@.baseline == calibrated(old(self)@.baseline, events@),
    {
        broadcast use vstd::std_specs::hash::group_hash_axioms;

        let mut i: usize = 0;
        while i < events.len()
            invariant
                i <= events.len(),
                self.calibrating == old(self).calibrating,
                self.baseline@ == calibrated(old(self).baseline@, events@.take(i as int)),
            decreases events.len() - i,
        {
            let event = &events[i];
            assert(events@.take(i + 1).drop_last() =~= events@.take(i as int));
            match event.kind() {
                EventKind::AbsAxis(code) => {
                    if code != ABS_HAT0X && code != ABS_HAT0Y {
                        self.baseline.insert(code, event.value);
                    }
                },
                _ => {},
            }
            i += 1;
        }
        assert(events@.take(events.len() as int) =~= events@);
    }

    /// The axis that an event shows to have moved, if it shows one.
    pub fn moved(&self, event: &InputEvent) -> (axis: Option<u16>)
        ensures
            axis == moved_axis(self@.baseline, *event),
    {
        match event.kind() {
            EventKind::AbsAxis(code) => {
                if code == ABS_HAT0X || code == ABS_HAT0Y {
                    None
                } else {
                    let current: i64 = event.value as i64;
                    let rest: i64 = self.baseline(code) as i64;
                    let diff: i64 = if current >= rest {
                        current - rest
                    } else {
                        rest - current
                    };
                    if diff > AXIS_THRESHOLD as i64 {
                        Some(code)
                    } else {
                        None
                    }
                }
            },
            _ => None,
        }
    }

    /// The axis that the first qualifying event of a batch shows to have
    /// moved.
    pub fn detect(&self, events: &Vec<InputEvent>) -> (axis: Option<u16>)
        ensures
            axis == first_moved_axis(self@.baseline, events@),
    {
        let mut i: usize = 0;
        assert(events@.skip(0) =~= events@);
        while i < events.len()
            invariant
                i <= events.len(),
                first_moved_axis(self@.baseline, events@) == first_moved_axis(
                    self@.baseline,
                    events@.skip(i as int),
                ),
            decreases events.len() - i,
        {
            let axis = self.moved(&events[i]);
            assert(events@.skip(i as int).skip(1) =~= events@.skip(i + 1));
            if axis.is_some() {
                return axis;
            }
            i += 1;
        }
        None
    }

    /// Moves the session on by one report from the caller, `elapsed_ms`
    /// milliseconds after the capture was invoked.
    pub fn advance(&mut self, elapsed_ms: u64, input: &CaptureInput) -> (action: CaptureAction<
        u16,
    >)
        ensures
            (final(self)@, action@) == old(self)@.after_report(elapsed_ms, input@),
    {
        match input {
            CaptureInput::OpenFailed(cause) => CaptureAction::Failed(
                Error::DeviceOpen(cause.clone()),
            ),
            CaptureInput::ReadFailed => CaptureAction::Sleep(BACKOFF_MILLIS),
            CaptureInput::Polled(events) => {
                if self.calibrating {
                    self.calibrate(events);
                    CaptureAction::Sleep(BACKOFF_MILLIS)
                } else {
                    match self.detect(events) {
                        Some(code) => CaptureAction::Captured(code),
                        None => check_deadline(CaptureKind::Axis, elapsed_ms),
                    }
                }
            },
            _ => {
                if self.calibrating && elapsed_ms < CALIBRATION_MILLIS {
                    CaptureAction::Poll
                } else {
                    self.calibrating = false;
                    check_deadline(CaptureKind::Axis, elapsed_ms)
                }
            },
        }
    }
}

/// The axis that a batch reports is that of its first event that shows
/// movement; a batch reports none where no event shows any.
pub proof fn lemma_first_moved_axis(baseline: Map<u16, i32>, events: Seq<InputEvent>)
    ensures
        match first_moved_axis(baseline, events) {
            Some(code) => exists|i: int|
                0 <= i < events.len() && #[trigger] moved_axis(baseline, events[i]) == Some(code)
                    && forall|j: int|
                    0 <= j < i ==> #[trigger] moved_axis(baseline, events[j]) is None,
            None => forall|i: int|
                0 <= i < events.len() ==> #[trigger] moved_axis(baseline, events[i]) is None,
        },
    decreases events.len(),
{
    if events.len() > 0 && moved_axis(baseline, events[0]) is None {
        // the first event shows nothing, so the answer is that of the rest
        let rest = events.skip(1);
        lemma_first_moved_axis(baseline, rest);
        match first_moved_axis(baseline, rest) {
            Some(code) => {
                let i = choose|i: int|
                    0 <= i < rest.len() && #[trigger] moved_axis(baseline, rest[i]) == Some(code)
                        && forall|j: int|
                        0 <= j < i ==> #[trigger] moved_axis(baseline, rest[j]) is None;
                assert(moved_axis(baseline, events[i + 1]) == Some(code));
                assert forall|j: int| 0 <= j < i + 1 implies #[trigger] moved_axis(
                    baseline,
                    events[j],
                ) is None by {
                    if j > 0 {
                        assert(moved_axis(baseline, rest[j - 1]) is None);
                    }
                }
            },
            None => {
                assert forall|i: int| 0 <= i < events.len() implies #[trigger] moved_axis(
                    baseline,
                    events[i],
                ) is None by {
                    if i > 0 {
                        assert(moved_axis(baseline, rest[i - 1]) is None);
                    }
                }
            },
        }
    }
}

/// Calibration keeps, for an analog axis, the value of the last event that
/// reported on it.
pub proof fn lemma_calibration_keeps_latest(
    baseline: Map<u16, i32>,
    events: Seq<InputEvent>,
    i: int,
)
    requires
        0 <= i < events.len(),
        analog_axis(events[i]) is Some,
        forall|j: int| i < j < events.len() ==> analog_axis(events[j]) != analog_axis(events[i]),
    ensures
        calibrated(baseline, events).dom().contains(analog_axis(events[i])->0),
        calibrated(baseline, events)[analog_axis(events[i])->0] == events[i].value,
    decreases events.len(),
{
    if i < events.len() - 1 {
        lemma_calibration_keeps_latest(baseline, events.drop_last(), i);
    }
}

/// Calibration leaves alone every axis that no event of the window reports
/// on as an analog axis. The D-pad axes are among them, whatever arrives.
pub proof fn lemma_calibration_leaves_unseen(
    baseline: Map<u16, i32>,
    events: Seq<InputEvent>,
    code: u16,
)
    requires
        is_dpad_axis(code) || forall|j: int|
            0 <= j < events.len() ==> analog_axis(events[j]) != Some(code),
    ensures
        calibrated(baseline, events).dom().contains(code) == baseline.dom().contains(code),
        baseline_of(calibrated(baseline, events), code) == baseline_of(baseline, code),
    decreases events.len(),
{
    if events.len() > 0 {
        lemma_calibration_leaves_unseen(baseline, events.drop_last(), code);
    }
}

/// An axis capture never waits without bound: it asks for a poll only
/// while the deadline has not passed, and for no pause but the short one
/// that follows a failed read or a batch of the calibration window.
pub proof fn lemma_axis_capture_is_bounded(
    session: AxisCaptureView,
    elapsed_ms: u64,
    input: CaptureInputView,
)
    ensures
        session.after_report(elapsed_ms, input).1 is Poll ==> elapsed_ms <= DEADLINE_MILLIS,
        session.after_report(elapsed_ms, input).1 matches CaptureActionView::Sleep(millis)
            ==> millis == BACKOFF_MILLIS && (input is ReadFailed || (input is Polled
            && session.calibrating)),
{
}

/// The deadline ends an axis capture: once it has passed, a session asked
/// how to go on times out in either phase, and a batch without movement is
/// answered with a timeout while detecting. A failed read, and a batch
/// taken in while calibrating, are answered with one pause, after which the
/// timeout follows.
pub proof fn lemma_deadline_ends_axis_capture(
    session: AxisCaptureView,
    elapsed_ms: u64,
    input: CaptureInputView,
)
    requires
        elapsed_ms > DEADLINE_MILLIS,
        !(input is OpenFailed),
        input matches CaptureInputView::Polled(events) ==> first_moved_axis(
            session.baseline,
            events,
        ) is None,
    ensures
        input is Opened || input is Slept || (input is Polled && !session.calibrating)
            ==> session.after_report(elapsed_ms, input).1 == CaptureActionView::<u16>::Failed(
            ErrorView::CaptureTimeout(CaptureKind::Axis),
        ),
        input is ReadFailed || (input is Polled && session.calibrating) ==> {
            let (paused, action) = session.after_report(elapsed_ms, input);
            &&& action == CaptureActionView::<u16>::Sleep(BACKOFF_MILLIS)
            &&& paused.after_report(elapsed_ms, CaptureInputView::Slept).1 == CaptureActionView::<
                u16,
            >::Failed(ErrorView::CaptureTimeout(CaptureKind::Axis))
        },
{
}

} // verus!
