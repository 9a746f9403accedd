//! Gesture recognizer: the path tracker behind a recognizer-level event interface.
use vstd::prelude::*;
use crate::config::Settings;
use crate::gesture::{Gesture, GestureView, GestureContext, GestureDir, GestureModifier, Point};
use crate::mouse::MouseEvent;
use crate::tracker::{PathTracker, TrackerEvent, TrackerEventView, TrackerState, TrackerView, events_view};

verus! {

/// Gesture recognizer events
pub enum GestureRecognizerEvent {
    GestureStarted(GestureContext),
    GestureRecognized(Gesture, bool),  // gesture, is_final
    GestureCompleted(Gesture),
    GestureCancelled,
    ModifierDetected(GestureModifier),
    PositionUpdate(Point),
}

/// Abstract value of a recognizer event.
pub enum RecognizerEventView {
    GestureStarted(GestureContext),
    GestureRecognized(GestureView, bool),
    GestureCompleted(GestureView),
    GestureCancelled,
    ModifierDetected(GestureModifier),
    PositionUpdate(Point),
}

impl View for GestureRecognizerEvent {
    type V = RecognizerEventView;

    open spec fn view(&self) -> RecognizerEventView {
        match self {
            GestureRecognizerEvent::GestureStarted(c) => RecognizerEventView::GestureStarted(*c),
            GestureRecognizerEvent::GestureRecognized(g, f) => RecognizerEventView::GestureRecognized(
                g@,
                *f,
            ),
            GestureRecognizerEvent::GestureCompleted(g) => RecognizerEventView::GestureCompleted(g@),
            GestureRecognizerEvent::GestureCancelled => RecognizerEventView::GestureCancelled,
            GestureRecognizerEvent::ModifierDetected(m) => RecognizerEventView::ModifierDetected(*m),
            GestureRecognizerEvent::PositionUpdate(p) => RecognizerEventView::PositionUpdate(*p),
        }
    }
}

/// How a tracker event is reported by the recognizer: a changed gesture is reported
/// as recognized but not final, everything else passes through.
pub open spec fn recognizer_event(e: TrackerEventView) -> RecognizerEventView {
    match e {
        TrackerEventView::GestureStarted(c) => RecognizerEventView::GestureStarted(c),
        TrackerEventView::GestureChanged(g) => RecognizerEventView::GestureRecognized(g, false),
        TrackerEventView::GestureCompleted(g) => RecognizerEventView::GestureCompleted(g),
        TrackerEventView::GestureCancelled => RecognizerEventView::GestureCancelled,
        TrackerEventView::ModifierDetected(m) => RecognizerEventView::ModifierDetected(m),
        TrackerEventView::PositionUpdate(p) => RecognizerEventView::PositionUpdate(p),
    }
}

/// Converts one tracker event into the recognizer's form.
pub fn convert_event(event: TrackerEvent) -> (r: GestureRecognizerEvent)
    ensures
        r@ == recognizer_event(event@),
{
    match event {
        TrackerEvent::GestureStarted(context) => GestureRecognizerEvent::GestureStarted(context),
        TrackerEvent::GestureChanged(gesture) => GestureRecognizerEvent::GestureRecognized(gesture, false),
        TrackerEvent::GestureCompleted(gesture) => GestureRecognizerEvent::GestureCompleted(gesture),
        TrackerEvent::GestureCancelled => GestureRecognizerEvent::GestureCancelled,
        TrackerEvent::ModifierDetected(modifier) => GestureRecognizerEvent::ModifierDetected(modifier),
        TrackerEvent::PositionUpdate(point) => GestureRecognizerEvent::PositionUpdate(point),
    }
}

/// Abstract state of a recognizer.
pub struct RecognizerView {
    pub tracker: TrackerView,
    pub max_gesture_steps: usize,
}

/// Gesture recognizer that combines tracking and parsing
pub struct GestureRecognizer {
    tracker: PathTracker,
}

impl View for GestureRecognizer {
    type V = RecognizerView;

    closed spec fn view(&self) -> RecognizerView {
        RecognizerView { tracker: self.tracker@, max_gesture_steps: self.tracker@.max_steps }
    }
}

impl GestureRecognizer {
    /// Create a new gesture recognizer
    pub fn new(settings: Settings) -> (r: Self)
        ensures
            r@.tracker.state == TrackerState::Idle,
            r@.tracker.settings == settings,
            r@.tracker.events == Seq::<TrackerEventView>::empty(),
            r@.tracker == r@.tracker.reset(),
            r@.tracker.well_formed(),
            r@.max_gesture_steps == 12,
    {
        let tracker = PathTracker::new(settings);
        GestureRecognizer { tracker }
    }

    /// Set the maximum gesture steps: a gesture records at most this many directions,
    /// and a gesture under way keeps only its first `max` directions.
    pub fn set_max_gesture_steps(&mut self, max: usize)
        requires
            old(self)@.tracker.well_formed(),
        ensures
            final(self)@.max_gesture_steps == max,
            final(self)@.tracker == old(self)@.tracker.with_max_steps(max),
            final(self)@.tracker.well_formed(),
    {
        self.tracker.set_max_steps(max);
    }

    /// The maximum gesture steps.
    pub fn max_gesture_steps(&self) -> (r: usize)
        ensures
            r == self@.max_gesture_steps,
    {
        self.tracker.max_steps()
    }

    /// Handle a mouse event (the tracker decides from the event and its state whether a
    /// press starts a gesture or is a modifier).
    pub fn handle_mouse_event<F: Fn(i64, i64) -> GestureDir>(
        &mut self,
        event: &MouseEvent,
        classify_8: &F,
    )
        requires
            old(self)@.tracker.well_formed(),
            forall|dx: i64, dy: i64| classify_8.requires((dx, dy)),
        ensures
            exists|now: u64, d8: GestureDir|
                {
                    &&& old(self)@.tracker.event_uses_classifier(*event) ==> classify_8.ensures(
                        (
                            old(self)@.tracker.stroke_dx(event.spec_position().0) as i64,
                            old(self)@.tracker.stroke_dy(event.spec_position().1) as i64,
                        ),
                        d8,
                    )
                    &&& final(self)@.tracker == #[trigger] old(self)@.tracker.handle_event(
                        *event,
                        now,
                        d8,
                    )
                },
            final(self)@.tracker.well_formed(),
            final(self)@.max_gesture_steps == old(self)@.max_gesture_steps,
    {
        self.tracker.handle_mouse_event(event, classify_8);
    }

    /// Handle a mouse event at time `now` (milliseconds of the caller's clock).
    pub fn handle_mouse_event_at<F: Fn(i64, i64) -> GestureDir>(
        &mut self,
        event: &MouseEvent,
        now: u64,
        classify_8: &F,
    )
        requires
            old(self)@.tracker.well_formed(),
            forall|dx: i64, dy: i64| classify_8.requires((dx, dy)),
        ensures
            exists|d8: GestureDir|
                {
                    &&& old(self)@.tracker.event_uses_classifier(*event) ==> classify_8.ensures(
                        (
                            old(self)@.tracker.stroke_dx(event.spec_position().0) as i64,
                            old(self)@.tracker.stroke_dy(event.spec_position().1) as i64,
                        ),
                        d8,
                    )
                    &&& final(self)@.tracker == #[trigger] old(self)@.tracker.handle_event(
                        *event,
                        now,
                        d8,
                    )
                },
            final(self)@.tracker.well_formed(),
            final(self)@.max_gesture_steps == old(self)@.max_gesture_steps,
    {
        self.tracker.handle_mouse_event_at(event, now, classify_8);
    }

    /// Check for timeout
    pub fn check_timeout(&mut self) -> (r: bool)
        requires
            old(self)@.tracker.well_formed(),
        ensures
            exists|now: u64|
                r == old(self)@.tracker.timed_out(now) && final(self)@.tracker == #[trigger] old(
                    self,
                )@.tracker.check_timeout(now),
            final(self)@.tracker.well_formed(),
            final(self)@.max_gesture_steps == old(self)@.max_gesture_steps,
    {
        self.tracker.check_timeout()
    }

    /// Check for timeout at time `now` (milliseconds of the caller's clock).
    pub fn check_timeout_at(&mut self, now: u64) -> (r: bool)
        requires
            old(self)@.tracker.well_formed(),
        ensures
            r == old(self)@.tracker.timed_out(now),
            final(self)@.tracker == old(self)@.tracker.check_timeout(now),
            final(self)@.tracker.well_formed(),
            final(self)@.max_gesture_steps == old(self)@.max_gesture_steps,
    {
        self.tracker.check_timeout_at(now)
    }

    /// Removes and returns the events reported since the last call, oldest first.
    pub fn take_events(&mut self) -> (r: Vec<GestureRecognizerEvent>)
        requires
            old(self)@.tracker.well_formed(),
        ensures
            r@.map_values(|e: GestureRecognizerEvent| e@) == old(self)@.tracker.events.map_values(
                |e: TrackerEventView| recognizer_event(e),
            ),
            final(self)@.tracker == old(self)@.tracker.without_events(),
            final(self)@.tracker.well_formed(),
            final(self)@.max_gesture_steps == old(self)@.max_gesture_steps,
    {
        let mut events = self.tracker.take_events();
        let ghost src = events_view(events@);
        let mut out: Vec<GestureRecognizerEvent> = Vec::new();
        let mut taken: Vec<TrackerEvent> = Vec::new();
        std::mem::swap(&mut taken, &mut events);
        let ghost n = taken@.len();
        // Convert in order: pop from the back into a reversed list, then reverse.
        let mut reversed: Vec<GestureRecognizerEvent> = Vec::new();
        while taken.len() > 0
            invariant
                src.len() == n,
                taken@.len() <= n,
                events_view(taken@) == src.take(taken@.len() as int),
                reversed@.len() == n - taken@.len(),
                forall|k: int|
                    0 <= k < reversed@.len() ==> (#[trigger] reversed@[k])@ == recognizer_event(
                        src[n - 1 - k],
                    ),
            decreases taken@.len(),
        {
            let ghost before = taken@;
            let e = taken.pop().unwrap();
            proof {
                assert(events_view(taken@) =~= src.take(taken@.len() as int)) by {
                    assert(taken@ =~= before.drop_last());
                    assert(forall|k: int|
                        0 <= k < taken@.len() ==> events_view(taken@)[k] == events_view(before)[k]);
                }
                assert(e@ == events_view(before)[before.len() - 1]);
            }
            reversed.push(convert_event(e));
        }
        while reversed.len() > 0
            invariant
                reversed@.len() + out@.len() == n,
                forall|k: int|
                    0 <= k < reversed@.len() ==> (#[trigger] reversed@[k])@ == recognizer_event(
                        src[n - 1 - k],
                    ),
                forall|k: int|
                    0 <= k < out@.len() ==> (#[trigger] out@[k])@ == recognizer_event(src[k]),
            decreases reversed@.len(),
        {
            let e = reversed.pop().unwrap();
            out.push(e);
        }
        proof {
            assert(out@.map_values(|e: GestureRecognizerEvent| e@) =~= src.map_values(
                |e: TrackerEventView| recognizer_event(e),
            ));
        }
        out
    }

    /// Get the current state
    pub fn state(&self) -> (r: &TrackerState)
        ensures
            *r == self@.tracker.state,
    {
        self.tracker.state()
    }

    /// Get the current gesture
    pub fn current_gesture(&self) -> (r: Option<&Gesture>)
        ensures
            match r {
                Some(g) => self@.tracker.gesture == Some(g@),
                None => self@.tracker.gesture is None,
            },
    {
        self.tracker.current_gesture()
    }

    /// Check if a gesture is being tracked
    pub fn is_tracking(&self) -> (r: bool)
        ensures
            r == (self@.tracker.state is Tracking),
    {
        match self.state() {
            TrackerState::Tracking => true,
            _ => false,
        }
    }

    /// Check if in capture mode
    pub fn is_capturing(&self) -> (r: bool)
        ensures
            r == (self@.tracker.state is Capturing),
    {
        match self.state() {
            TrackerState::Capturing => true,
            _ => false,
        }
    }

    /// The settings the recognizer works with.
    pub fn settings(&self) -> (r: &Settings)
        ensures
            *r == self@.tracker.settings,
    {
        self.tracker.settings()
    }
}

} // verus!
