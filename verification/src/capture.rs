//! Gesture capture mode for the settings dialog: while capture mode is on, the next
//! completed gesture is stored instead of being executed.
use vstd::prelude::*;
use crate::gesture::GestureTriggerButton;
use crate::text::views;

verus! {

/// Captured gesture result including directions and trigger button
#[derive(Debug, Clone)]
pub struct CaptureResult {
    pub directions: Vec<String>,
    pub trigger_button: GestureTriggerButton,
}

/// Abstract value of a capture result.
pub struct CaptureResultView {
    pub directions: Seq<Seq<char>>,
    pub trigger_button: GestureTriggerButton,
}

impl View for CaptureResult {
    type V = CaptureResultView;

    open spec fn view(&self) -> CaptureResultView {
        CaptureResultView { directions: views(self.directions@), trigger_button: self.trigger_button }
    }
}

/// The view of an optional capture result.
pub open spec fn opt_capture_view(o: Option<CaptureResult>) -> Option<CaptureResultView> {
    match o {
        Some(c) => Some(c@),
        None => None,
    }
}

/// Abstract value of the capture state.
pub struct CaptureStateView {
    pub capture_mode: bool,
    pub result: Option<CaptureResultView>,
}

impl CaptureStateView {
    /// After `start_capture`: capturing, nothing captured.
    pub open spec fn started(self) -> CaptureStateView {
        CaptureStateView { capture_mode: true, result: None }
    }

    /// After `cancel_capture`: not capturing, nothing captured.
    pub open spec fn cancelled(self) -> CaptureStateView {
        CaptureStateView { capture_mode: false, result: None }
    }

    /// After `set_capture_result`: not capturing, holding the given result.
    pub open spec fn with_result(self, directions: Seq<Seq<char>>, button: GestureTriggerButton) -> CaptureStateView {
        CaptureStateView {
            capture_mode: false,
            result: Some(CaptureResultView { directions, trigger_button: button }),
        }
    }

    /// After `take_capture_result`: the result is gone, the mode unchanged.
    pub open spec fn taken(self) -> CaptureStateView {
        CaptureStateView { result: None, ..self }
    }
}

/// The capture-mode flag and the captured result.
pub struct CaptureState {
    pub capture_mode: bool,
    pub result: Option<CaptureResult>,
}

impl View for CaptureState {
    type V = CaptureStateView;

    open spec fn view(&self) -> CaptureStateView {
        CaptureStateView { capture_mode: self.capture_mode, result: opt_capture_view(self.result) }
    }
}

impl CaptureState {
    /// Not capturing, nothing captured.
    pub fn new() -> (s: Self)
        ensures
            !s@.capture_mode,
            s@.result is None,
    {
        CaptureState { capture_mode: false, result: None }
    }
}

/// Enable capture mode. The next completed gesture will be captured.
pub fn start_capture(state: &mut CaptureState)
    ensures
        final(state)@ == old(state)@.started(),
{
    // Clear any previous result
    state.result = None;
    state.capture_mode = true;
}

/// Cancel capture mode without waiting for a gesture.
pub fn cancel_capture(state: &mut CaptureState)
    ensures
        final(state)@ == old(state)@.cancelled(),
{
    state.capture_mode = false;
    state.result = None;
}

/// Check if currently in capture mode.
pub fn is_capture_mode(state: &CaptureState) -> (r: bool)
    ensures
        r == state@.capture_mode,
{
    state.capture_mode
}

/// Store a captured gesture result (directions + trigger button) and leave capture mode.
pub fn set_capture_result(
    state: &mut CaptureState,
    directions: Vec<String>,
    trigger_button: GestureTriggerButton,
)
    ensures
        final(state)@ == old(state)@.with_result(views(directions@), trigger_button),
{
    state.result = Some(CaptureResult { directions, trigger_button });
    state.capture_mode = false;
}

/// Take the captured gesture result (Some if a gesture was captured, None otherwise).
/// This consumes the result.
pub fn take_capture_result(state: &mut CaptureState) -> (r: Option<CaptureResult>)
    ensures
        opt_capture_view(r) == old(state)@.result,
        final(state)@ == old(state)@.taken(),
{
    state.result.take()
}

/// A captured gesture is handed out exactly once: after a result is set, taking gives
/// back the directions and button that were set, capture mode is off, and a second
/// take finds nothing.
pub proof fn lemma_capture_round_trip(
    s: CaptureStateView,
    directions: Seq<Seq<char>>,
    button: GestureTriggerButton,
)
    ensures
        s.with_result(directions, button).result == Some(
            CaptureResultView { directions, trigger_button: button },
        ),
        !s.with_result(directions, button).taken().capture_mode,
        s.with_result(directions, button).taken().result is None,
        s.with_result(directions, button).taken().taken().result is None,
{
}

/// Starting or cancelling a capture discards any earlier result.
pub proof fn lemma_start_and_cancel_discard(s: CaptureStateView)
    ensures
        s.started().result is None,
        s.started().capture_mode,
        s.cancelled().result is None,
        !s.cancelled().capture_mode,
{
}

} // verus!
