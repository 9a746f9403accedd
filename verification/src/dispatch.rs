//! What the running program does with the mouse and the recognizer's events: where a
//! gesture may start, and which action a completed gesture runs in the application in
//! front.
use vstd::prelude::*;
use crate::config::{Action, ActionView};
use crate::gesture::GestureDir;
use crate::intent::{lookup, opt_str_view, spec_gesture_key, GestureIntentFinder};
use crate::mouse::MouseEvent;
use crate::recognizer::GestureRecognizerEvent;
use crate::tracker::TrackerView;

verus! {

/// The view of an optional action.
pub open spec fn opt_action_view(o: Option<Action>) -> Option<ActionView> {
    match o {
        Some(a) => Some(a@),
        None => None,
    }
}

/// The action to carry out for a recognizer event in application `app_name` (the
/// executable name of the application in front, when known): for a completed gesture,
/// the application's own entry for the gesture when it has one, which takes precedence
/// over the global entry, otherwise the global entry; none for any other event or an
/// unconfigured gesture.
pub fn action_for_event(
    finder: &GestureIntentFinder,
    event: &GestureRecognizerEvent,
    app_name: Option<&str>,
) -> (r: Option<Action>)
    ensures
        match event {
            GestureRecognizerEvent::GestureCompleted(g) => opt_action_view(r) == match lookup(
                finder.global_view(),
                finder.apps_view(),
                spec_gesture_key(g@),
                opt_str_view(app_name),
            ) {
                Some(e) => Some(e.action),
                None => None,
            },
            _ => r is None,
        },
{
    match event {
        GestureRecognizerEvent::GestureCompleted(gesture) => match finder.find(gesture, app_name) {
            Some(intent) => Some(intent.action),
            None => None,
        },
        _ => None,
    }
}

/// Whether a gesture may start in the current context: the application in front
/// (`app_name`, when known) is not one where gestures are disabled, and it is not
/// full screen (`fullscreen`) while the settings turn gestures off in full-screen
/// applications.
pub open spec fn spec_may_start(finder: GestureIntentFinder, app_name: Option<Seq<char>>, fullscreen: bool) -> bool {
    &&& !(app_name is Some && finder.spec_config().disabled_apps.view().contains(app_name.unwrap()))
    &&& !(finder.spec_config().settings.disable_in_fullscreen && fullscreen)
}

/// Decides whether a gesture may start in the current context (see `spec_may_start`).
pub fn may_start_gesture(finder: &GestureIntentFinder, app_name: Option<&str>, fullscreen: bool) -> (r: bool)
    ensures
        r == spec_may_start(*finder, opt_str_view(app_name), fullscreen),
{
    finder.is_gesturing_enabled(app_name) && !(finder.config().settings.disable_in_fullscreen
        && fullscreen)
}

/// A press of a button that can start a gesture (right, middle, or the first or second
/// extra button).
pub open spec fn is_gesture_press(event: MouseEvent) -> bool {
    match event {
        MouseEvent::RightButtonDown(..) | MouseEvent::MiddleButtonDown(..) => true,
        MouseEvent::XButtonDown(_, _, n) => n == 1 || n == 2,
        _ => false,
    }
}

/// Whether `event` is a press of a button that can start a gesture.
pub fn gesture_press(event: &MouseEvent) -> (r: bool)
    ensures
        r == is_gesture_press(*event),
{
    match event {
        MouseEvent::RightButtonDown(..) | MouseEvent::MiddleButtonDown(..) => true,
        MouseEvent::XButtonDown(_, _, n) => *n == 1 || *n == 2,
        _ => false,
    }
}

/// Whether the recognizer is handed `event`: always while a gesture is under way
/// (`idle` false); while idle, everything but a press that would start a gesture where
/// none may start (`may_start` false). A press that is not handed on leaves the mouse
/// to the application as it is.
pub fn admits_event(idle: bool, may_start: bool, event: &MouseEvent) -> (r: bool)
    ensures
        r == !(idle && !may_start && is_gesture_press(*event)),
{
    !(idle && !may_start && gesture_press(event))
}

/// An idle tracker only leaves idle on a press of a gesture button; any other event
/// changes nothing. So where `admits_event` turns such presses away, no gesture
/// tracking starts.
pub proof fn lemma_idle_tracker_starts_only_on_press(v: TrackerView, event: MouseEvent, now: u64, d8: GestureDir)
    requires
        v.state is Idle,
        !is_gesture_press(event),
    ensures
        v.handle_event(event, now, d8) == v,
{
}

} // verus!
