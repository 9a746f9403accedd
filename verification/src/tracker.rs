//! Path tracker: follows the mouse while a trigger button is held and turns the
//! movement into a gesture.
use vstd::prelude::*;
use crate::gesture::{
    Gesture, GestureView, GestureContext, GestureDir, GestureModifier, GestureTriggerButton, Point,
    with_direction, with_modifier, lemma_adding_keeps_well_formed,
};
use crate::config::Settings;
use crate::mouse::MouseEvent;
use crate::parser::{direction4, direction4_of};
use crate::clock::Clock;

verus! {

/// Path tracker state
#[derive(Debug, Clone, Copy, PartialEq, Eq, Structural)]
pub enum TrackerState {
    Idle,
    Capturing,
    Tracking,
}

/// Path tracker events
pub enum TrackerEvent {
    GestureStarted(GestureContext),
    GestureChanged(Gesture),
    GestureCompleted(Gesture),
    GestureCancelled,
    ModifierDetected(GestureModifier),
    PositionUpdate(Point),
}

/// Abstract value of a tracker event.
pub enum TrackerEventView {
    GestureStarted(GestureContext),
    GestureChanged(GestureView),
    GestureCompleted(GestureView),
    GestureCancelled,
    ModifierDetected(GestureModifier),
    PositionUpdate(Point),
}

impl View for TrackerEvent {
    type V = TrackerEventView;

    open spec fn view(&self) -> TrackerEventView {
        match self {
            TrackerEvent::GestureStarted(c) => TrackerEventView::GestureStarted(*c),
            TrackerEvent::GestureChanged(g) => TrackerEventView::GestureChanged(g@),
            TrackerEvent::GestureCompleted(g) => TrackerEventView::GestureCompleted(g@),
            TrackerEvent::GestureCancelled => TrackerEventView::GestureCancelled,
            TrackerEvent::ModifierDetected(m) => TrackerEventView::ModifierDetected(*m),
            TrackerEvent::PositionUpdate(p) => TrackerEventView::PositionUpdate(*p),
        }
    }
}

/// Abstract state of a path tracker.
pub struct TrackerView {
    pub state: TrackerState,
    pub settings: Settings,
    /// The most directions a gesture records; later strokes add none.
    pub max_steps: usize,
    pub start_point: Option<Point>,
    pub last_point: Option<Point>,
    pub last_effective_point: Option<Point>,
    pub gesture: Option<GestureView>,
    pub mouse_down_time: Option<u64>,
    /// Time of the last effective move (one long enough to add a stroke), or of the press.
    pub last_effective_time: Option<u64>,
    /// Events emitted and not yet taken, oldest first.
    pub events: Seq<TrackerEventView>,
}

/// The point (x, y).
pub open spec fn pt(x: i32, y: i32) -> Point {
    Point { x, y }
}

/// The distance from `a` to `b` exceeds `threshold` pixels.
pub open spec fn beyond(a: Point, b: Point, threshold: u32) -> bool {
    a.spec_distance_squared(b) > threshold * threshold
}

/// The context reported when a gesture starts at `start`.
pub open spec fn started_context(start: Point) -> GestureContext {
    GestureContext {
        start_point: start,
        current_point: start,
        window_handle: None,
        process_id: None,
        is_fullscreen: false,
    }
}

impl TrackerView {
    /// Consistency of the tracker: idle exactly when nothing is being tracked, the
    /// gesture in progress is well formed and within the step limit, and every completed gesture reported has
    /// at least one direction.
    pub open spec fn well_formed(self) -> bool {
        &&& match self.state {
            TrackerState::Idle => {
                &&& self.start_point is None
                &&& self.last_point is None
                &&& self.last_effective_point is None
                &&& self.gesture is None
                &&& self.mouse_down_time is None
                &&& self.last_effective_time is None
            },
            _ => {
                &&& self.start_point is Some
                &&& self.last_point is Some
                &&& self.last_effective_point is Some
                &&& self.gesture is Some
                &&& self.gesture.unwrap().well_formed()
                &&& self.gesture.unwrap().directions.len() <= self.max_steps
                &&& self.mouse_down_time is Some
                &&& self.last_effective_time is Some
            },
        }
        &&& forall|i: int|
            0 <= i < self.events.len() ==> (#[trigger] self.events[i] matches TrackerEventView::GestureCompleted(
                g,
            ) ==> g.directions.len() > 0 && g.well_formed())
    }

    /// Back to idle, keeping the settings and the pending events.
    pub open spec fn reset(self) -> TrackerView {
        TrackerView {
            state: TrackerState::Idle,
            start_point: None,
            last_point: None,
            last_effective_point: None,
            gesture: None,
            mouse_down_time: None,
            last_effective_time: None,
            ..self
        }
    }

    /// The tracker with the step limit set to `max`: a gesture under way keeps only its
    /// first `max` directions.
    pub open spec fn with_max_steps(self, max: usize) -> TrackerView {
        TrackerView {
            max_steps: max,
            gesture: match self.gesture {
                Some(g) => Some(
                    GestureView {
                        directions: if g.directions.len() > max {
                            g.directions.take(max as int)
                        } else {
                            g.directions
                        },
                        ..g
                    },
                ),
                None => None,
            },
            ..self
        }
    }

    /// The tracker with its event queue emptied.
    pub open spec fn without_events(self) -> TrackerView {
        TrackerView { events: Seq::empty(), ..self }
    }

    /// The tracker after `event` is emitted.
    pub open spec fn emit(self, event: TrackerEventView) -> TrackerView {
        TrackerView { events: self.events.push(event), ..self }
    }

    /// A trigger button goes down at (x, y) at time `now`: a new gesture starts capturing.
    pub open spec fn mouse_down(self, x: i32, y: i32, button: GestureTriggerButton, now: u64) -> TrackerView {
        TrackerView {
            state: TrackerState::Capturing,
            start_point: Some(pt(x, y)),
            last_point: Some(pt(x, y)),
            last_effective_point: Some(pt(x, y)),
            gesture: Some(
                GestureView {
                    trigger_button: button,
                    directions: Seq::empty(),
                    modifiers: Seq::empty(),
                },
            ),
            mouse_down_time: Some(now),
            last_effective_time: Some(now),
            ..self
        }
    }

    /// A move to (x, y) is taken into account: the tracker is capturing or tracking,
    /// and a capturing tracker has been left far enough from the start.
    pub open spec fn move_counts(self, x: i32, y: i32) -> bool {
        &&& (self.state is Capturing || self.state is Tracking)
        &&& (self.state is Capturing ==> beyond(
            self.start_point.unwrap(),
            pt(x, y),
            self.settings.min_distance,
        ))
    }

    /// A counted move to (x, y) is long enough from the last effective point to add a stroke.
    pub open spec fn move_strokes(self, x: i32, y: i32) -> bool {
        &&& self.move_counts(x, y)
        &&& beyond(self.last_effective_point.unwrap(), pt(x, y), self.settings.effective_move)
    }

    /// The first stroke of a gesture is classified with 8 directions when that is enabled.
    pub open spec fn uses_8dir(self) -> bool {
        self.settings.enable_8_direction && self.gesture.unwrap().directions.len() == 0
    }

    /// The stroke's horizontal component for a move to x.
    pub open spec fn stroke_dx(self, x: i32) -> int {
        x - self.last_effective_point.unwrap().x
    }

    /// The stroke's vertical component for a move to y.
    pub open spec fn stroke_dy(self, y: i32) -> int {
        y - self.last_effective_point.unwrap().y
    }

    /// The stroke direction of a move to (x, y), given the 8-direction classification `d8`.
    pub open spec fn stroke_dir(self, x: i32, y: i32, d8: GestureDir) -> GestureDir {
        if self.uses_8dir() {
            d8
        } else {
            direction4(self.stroke_dx(x), self.stroke_dy(y))
        }
    }

    /// The mouse moves to (x, y) at time `now`; `d8` is the 8-direction classification of
    /// the stroke, used only for the first stroke when 8 directions are enabled. A
    /// stroke adds its direction only while the gesture has fewer than `max_steps`
    /// directions, and only a stroke renews the time the stay timeout counts from.
    pub open spec fn mouse_move(self, x: i32, y: i32, now: u64, d8: GestureDir) -> TrackerView {
        if !self.move_counts(x, y) {
            self
        } else {
            let p = pt(x, y);
            let v0 = if self.state is Capturing {
                self.emit(TrackerEventView::GestureStarted(started_context(self.start_point.unwrap())))
            } else {
                self
            };
            let v1 = TrackerView { state: TrackerState::Tracking, ..v0 };
            if self.move_strokes(x, y) {
                let g = self.gesture.unwrap();
                let dirs = if g.directions.len() < self.max_steps {
                    with_direction(g.directions, self.stroke_dir(x, y, d8))
                } else {
                    g.directions
                };
                let g2 = GestureView { directions: dirs, ..g };
                let v2 = TrackerView { gesture: Some(g2), last_effective_point: Some(p), ..v1 };
                let v3 = if dirs.len() != g.directions.len() {
                    v2.emit(TrackerEventView::GestureChanged(g2))
                } else {
                    v2
                };
                TrackerView {
                    last_point: Some(p),
                    last_effective_time: Some(now),
                    ..v3.emit(TrackerEventView::PositionUpdate(p))
                }
            } else {
                TrackerView { last_point: Some(p), ..v1.emit(TrackerEventView::PositionUpdate(p)) }
            }
        }
    }

    /// The trigger button is released: a gesture with directions completes, one
    /// without is cancelled, and the tracker goes idle.
    pub open spec fn mouse_up(self) -> TrackerView {
        let v = match self.gesture {
            Some(g) => if g.directions.len() > 0 {
                self.emit(TrackerEventView::GestureCompleted(g))
            } else {
                self.emit(TrackerEventView::GestureCancelled)
            },
            None => self,
        };
        v.reset()
    }

    /// A modifier is seen: while tracking it joins the gesture and is reported.
    pub open spec fn modifier(self, m: GestureModifier) -> TrackerView {
        if self.state is Tracking {
            let v = match self.gesture {
                Some(g) => TrackerView {
                    gesture: Some(GestureView { modifiers: with_modifier(g.modifiers, m), ..g }),
                    ..self
                },
                None => self,
            };
            v.emit(TrackerEventView::ModifierDetected(m))
        } else {
            self
        }
    }

    /// At time `now` the gesture has made no effective move for longer than the timeout.
    pub open spec fn timed_out(self, now: u64) -> bool {
        &&& self.state is Tracking
        &&& self.last_effective_time is Some
        &&& now > self.last_effective_time.unwrap() + self.settings.stay_timeout
    }

    /// The tracker after a timeout check at time `now`.
    pub open spec fn check_timeout(self, now: u64) -> TrackerView {
        if self.timed_out(now) {
            self.emit(TrackerEventView::GestureCancelled).reset()
        } else {
            self
        }
    }

    /// A press of `button` starts a gesture (rather than being a modifier) when no
    /// gesture is under way or the gesture under way was started by the same button.
    pub open spec fn starts_with(self, button: GestureTriggerButton) -> bool {
        match self.gesture {
            None => true,
            Some(g) => g.trigger_button == button,
        }
    }

    /// A press of `button` at (x, y): a new gesture, or the modifier `m`.
    pub open spec fn button_down(
        self,
        x: i32,
        y: i32,
        button: GestureTriggerButton,
        m: GestureModifier,
        now: u64,
    ) -> TrackerView {
        if self.starts_with(button) {
            self.mouse_down(x, y, button, now)
        } else {
            self.modifier(m)
        }
    }

    /// A trigger button is released: it ends the gesture when one is being tracked; a
    /// press that never moved past the minimum distance records nothing and the tracker
    /// goes idle.
    pub open spec fn button_up(self) -> TrackerView {
        if self.state is Tracking {
            self.mouse_up()
        } else if self.state is Capturing {
            self.reset()
        } else {
            self
        }
    }

    /// The classifier is consulted for this event.
    pub open spec fn event_uses_classifier(self, event: MouseEvent) -> bool {
        match event {
            MouseEvent::MouseMove(x, y) => self.move_strokes(x, y) && self.uses_8dir(),
            _ => false,
        }
    }

    /// The tracker after `event` at time `now` (`d8` as in `mouse_move`).
    pub open spec fn handle_event(self, event: MouseEvent, now: u64, d8: GestureDir) -> TrackerView {
        match event {
            MouseEvent::MouseMove(x, y) => self.mouse_move(x, y, now, d8),
            MouseEvent::LeftButtonDown(_, _) => self.modifier(GestureModifier::LeftButtonDown),
            MouseEvent::RightButtonDown(x, y) => self.button_down(
                x,
                y,
                GestureTriggerButton::Right,
                GestureModifier::RightButtonDown,
                now,
            ),
            MouseEvent::MiddleButtonDown(x, y) => self.button_down(
                x,
                y,
                GestureTriggerButton::Middle,
                GestureModifier::MiddleButtonDown,
                now,
            ),
            MouseEvent::XButtonDown(x, y, n) => if n == 1 {
                self.button_down(
                    x,
                    y,
                    GestureTriggerButton::X1,
                    GestureModifier::X1ButtonDown,
                    now,
                )
            } else if n == 2 {
                self.button_down(
                    x,
                    y,
                    GestureTriggerButton::X2,
                    GestureModifier::X2ButtonDown,
                    now,
                )
            } else {
                self
            },
            MouseEvent::RightButtonUp(_, _) => self.button_up(),
            MouseEvent::MiddleButtonUp(_, _) => self.button_up(),
            MouseEvent::XButtonUp(_, _, _) => self.button_up(),
            MouseEvent::MouseWheel(_, _, delta) => if delta > 0 {
                self.modifier(GestureModifier::WheelForward)
            } else {
                self.modifier(GestureModifier::WheelBackward)
            },
            _ => self,
        }
    }
}

/// The most directions a gesture records unless set otherwise.
pub const DEFAULT_MAX_STEPS: usize = 12;

/// Path tracker
pub struct PathTracker {
    state: TrackerState,
    settings: Settings,
    max_steps: usize,
    // Tracking state
    start_point: Option<Point>,
    last_point: Option<Point>,
    last_effective_point: Option<Point>,
    current_gesture: Option<Gesture>,
    // Timing, in milliseconds of `clock`
    mouse_down_time: Option<u64>,
    last_effective_time: Option<u64>,
    clock: Clock,
    // Emitted events not yet taken
    events: Vec<TrackerEvent>,
}

/// The views of a list of events.
pub open spec fn events_view(s: Seq<TrackerEvent>) -> Seq<TrackerEventView> {
    s.map_values(|e: TrackerEvent| e@)
}

/// The view of an optional gesture.
pub open spec fn opt_gesture_view(g: Option<Gesture>) -> Option<GestureView> {
    match g {
        Some(g) => Some(g@),
        None => None,
    }
}

impl View for PathTracker {
    type V = TrackerView;

    closed spec fn view(&self) -> TrackerView {
        TrackerView {
            state: self.state,
            settings: self.settings,
            max_steps: self.max_steps,
            start_point: self.start_point,
            last_point: self.last_point,
            last_effective_point: self.last_effective_point,
            gesture: opt_gesture_view(self.current_gesture),
            mouse_down_time: self.mouse_down_time,
            last_effective_time: self.last_effective_time,
            events: events_view(self.events@),
        }
    }
}

impl PathTracker {
    /// Create a new path tracker
    pub fn new(settings: Settings) -> (t: Self)
        ensures
            t@.state == TrackerState::Idle,
            t@.settings == settings,
            t@.max_steps == DEFAULT_MAX_STEPS,
            t@.events == Seq::<TrackerEventView>::empty(),
            t@ == t@.reset(),
            t@.well_formed(),
    {
        let t = PathTracker {
            state: TrackerState::Idle,
            settings,
            max_steps: DEFAULT_MAX_STEPS,
            start_point: None,
            last_point: None,
            last_effective_point: None,
            current_gesture: None,
            mouse_down_time: None,
            last_effective_time: None,
            clock: Clock::start(),
            events: Vec::new(),
        };
        assert(events_view(t.events@) =~= Seq::<TrackerEventView>::empty());
        t
    }

    /// Emit an event (it waits in the queue until taken)
    fn emit_event(&mut self, event: TrackerEvent)
        ensures
            final(self)@ == old(self)@.emit(event@),
    {
        let ghost e = event@;
        self.events.push(event);
        assert(events_view(self.events@) =~= events_view(old(self).events@).push(e));
    }

    /// Removes and returns the emitted events, oldest first.
    pub fn take_events(&mut self) -> (r: Vec<TrackerEvent>)
        requires
            old(self)@.well_formed(),
        ensures
            events_view(r@) == old(self)@.events,
            final(self)@ == old(self)@.without_events(),
            final(self)@.well_formed(),
    {
        let mut r: Vec<TrackerEvent> = Vec::new();
        std::mem::swap(&mut r, &mut self.events);
        assert(events_view(self.events@) =~= Seq::<TrackerEventView>::empty());
        r
    }

    /// Reset the tracker
    fn reset(&mut self)
        ensures
            final(self)@ == old(self)@.reset(),
            old(self)@.well_formed() ==> final(self)@.well_formed(),
    {
        self.state = TrackerState::Idle;
        self.start_point = None;
        self.last_point = None;
        self.last_effective_point = None;
        self.current_gesture = None;
        self.mouse_down_time = None;
        self.last_effective_time = None;
    }

    /// Handle mouse button down at time `now`
    pub fn on_mouse_down(&mut self, x: i32, y: i32, button: GestureTriggerButton, now: u64)
        requires
            old(self)@.well_formed(),
        ensures
            final(self)@ == old(self)@.mouse_down(x, y, button, now),
            final(self)@.well_formed(),
    {
        proof {
            lemma_mouse_down_keeps_well_formed(self@, x, y, button, now);
        }
        self.state = TrackerState::Capturing;
        self.start_point = Some(Point::new(x, y));
        self.last_point = Some(Point::new(x, y));
        self.last_effective_point = Some(Point::new(x, y));
        self.mouse_down_time = Some(now);
        self.last_effective_time = Some(now);
        // Create new gesture
        self.current_gesture = Some(Gesture::new(button));
        assert(self@.gesture =~= old(self)@.mouse_down(x, y, button, now).gesture);
    }

    /// Handle mouse move at time `now`; `classify_8` gives the 8-direction classification
    /// of a stroke (dx, dy) and is consulted for the first stroke when 8 directions are on.
    pub fn on_mouse_move<F: Fn(i64, i64) -> GestureDir>(
        &mut self,
        x: i32,
        y: i32,
        now: u64,
        classify_8: &F,
    )
        requires
            old(self)@.well_formed(),
            forall|dx: i64, dy: i64| classify_8.requires((dx, dy)),
        ensures
            exists|d8: GestureDir|
                {
                    &&& (old(self)@.move_strokes(x, y) && old(self)@.uses_8dir()) ==> classify_8.ensures(
                        (old(self)@.stroke_dx(x) as i64, old(self)@.stroke_dy(y) as i64),
                        d8,
                    )
                    &&& final(self)@ == #[trigger] old(self)@.mouse_move(x, y, now, d8)
                },
            final(self)@.well_formed(),
    {
        proof {
            assert forall|d8: GestureDir| #[trigger] self@.mouse_move(x, y, now, d8).well_formed() by {
                lemma_mouse_move_keeps_well_formed(self@, x, y, now, d8);
            }
        }
        let ghost v = self@;
        if self.state != TrackerState::Capturing && self.state != TrackerState::Tracking {
            assert(self@ == v.mouse_move(x, y, now, GestureDir::Up));
            return ;
        }
        let current_point = Point::new(x, y);
        let start = self.start_point.unwrap();
        // Check initial movement threshold
        if self.state == TrackerState::Capturing {
            if exceeds(&start, &current_point, self.settings.min_distance) {
                // Start tracking
                self.emit_event(TrackerEvent::GestureStarted(GestureContext::new(start)));
            } else {
                assert(self@ == v.mouse_move(x, y, now, GestureDir::Up));
                return ;  // Don't process yet
            }
        }
        self.state = TrackerState::Tracking;
        // Process movement
        let last_effective = self.last_effective_point.unwrap();
        let ghost mut d8: GestureDir = GestureDir::Up;
        if exceeds(&last_effective, &current_point, self.settings.effective_move) {
            let dx: i64 = x as i64 - last_effective.x as i64;
            let dy: i64 = y as i64 - last_effective.y as i64;
            let mut g = self.current_gesture.take().unwrap();
            let use_8dir = self.settings.enable_8_direction && g.len() == 0;
            let dir = if use_8dir {
                classify_8(dx, dy)
            } else {
                direction4_of(dx, dy)
            };
            proof {
                d8 = dir;
            }
            let old_len = g.len();
            if old_len < self.max_steps {
                g.add_direction(dir);
            }
            let new_len = g.len();
            proof {
                lemma_adding_keeps_well_formed(v.gesture.unwrap(), dir, GestureModifier::WheelForward);
            }
            if new_len != old_len {
                let changed = g.duplicate();
                self.current_gesture = Some(g);
                self.emit_event(TrackerEvent::GestureChanged(changed));
            } else {
                self.current_gesture = Some(g);
            }
            self.last_effective_point = Some(current_point);
            self.last_effective_time = Some(now);
        }
        self.emit_event(TrackerEvent::PositionUpdate(current_point));
        self.last_point = Some(current_point);
        assert(self@ == v.mouse_move(x, y, now, d8));
    }

    /// Handle mouse button up
    pub fn on_mouse_up(&mut self)
        requires
            old(self)@.well_formed(),
        ensures
            final(self)@ == old(self)@.mouse_up(),
            final(self)@.well_formed(),
            final(self)@.state is Idle,
    {
        proof {
            lemma_mouse_up_keeps_well_formed(self@);
        }
        if let Some(gesture) = self.current_gesture.take() {
            if gesture.len() > 0 {
                self.emit_event(TrackerEvent::GestureCompleted(gesture));
            } else {
                self.emit_event(TrackerEvent::GestureCancelled);
            }
        }
        self.reset();
    }

    /// Handle gesture modifier
    pub fn on_modifier(&mut self, modifier: GestureModifier)
        requires
            old(self)@.well_formed(),
        ensures
            final(self)@ == old(self)@.modifier(modifier),
            final(self)@.well_formed(),
    {
        proof {
            lemma_modifier_keeps_well_formed(self@, modifier);
        }
        if self.state == TrackerState::Tracking {
            match self.current_gesture.take() {
                Some(mut g) => {
                    g.add_modifier(modifier);
                    self.current_gesture = Some(g);
                },
                None => {},
            }
            self.emit_event(TrackerEvent::ModifierDetected(modifier));
        }
    }

    /// Handle a press of a trigger-capable button.
    fn on_button_down(
        &mut self,
        x: i32,
        y: i32,
        button: GestureTriggerButton,
        modifier: GestureModifier,
        now: u64,
    )
        requires
            old(self)@.well_formed(),
        ensures
            final(self)@ == old(self)@.button_down(x, y, button, modifier, now),
            final(self)@.well_formed(),
    {
        proof {
            lemma_mouse_down_keeps_well_formed(self@, x, y, button, now);
            lemma_modifier_keeps_well_formed(self@, modifier);
        }
        let starts = match &self.current_gesture {
            None => true,
            Some(g) => g.trigger_button == button,
        };
        if starts {
            self.on_mouse_down(x, y, button, now);
        } else {
            self.on_modifier(modifier);
        }
    }

    /// Handle a mouse event at time `now`.
    ///
    /// Right, Middle, X1 and X2 can all start a gesture: a press starts one when none is
    /// under way (or when it is the button that started the one under way); otherwise
    /// it is a modifier, as are left presses and wheel turns.
    pub fn handle_mouse_event_at<F: Fn(i64, i64) -> GestureDir>(
        &mut self,
        event: &MouseEvent,
        now: u64,
        classify_8: &F,
    )
        requires
            old(self)@.well_formed(),
            forall|dx: i64, dy: i64| classify_8.requires((dx, dy)),
        ensures
            exists|d8: GestureDir|
                {
                    &&& old(self)@.event_uses_classifier(*event) ==> classify_8.ensures(
                        (
                            old(self)@.stroke_dx(event.spec_position().0) as i64,
                            old(self)@.stroke_dy(event.spec_position().1) as i64,
                        ),
                        d8,
                    )
                    &&& final(self)@ == #[trigger] old(self)@.handle_event(*event, now, d8)
                },
            final(self)@.well_formed(),
    {
        proof {
            assert forall|d8: GestureDir| #[trigger] self@.handle_event(*event, now, d8).well_formed() by {
                lemma_handle_event_keeps_well_formed(self@, *event, now, d8);
            }
        }
        let ghost v = self@;
        match event {
            MouseEvent::MouseMove(x, y) => {
                self.on_mouse_move(*x, *y, now, classify_8);
                proof {
                    let d = choose|d8: GestureDir|
                        {
                            &&& (v.move_strokes(*x, *y) && v.uses_8dir()) ==> classify_8.ensures(
                                (v.stroke_dx(*x) as i64, v.stroke_dy(*y) as i64),
                                d8,
                            )
                            &&& self@ == #[trigger] v.mouse_move(*x, *y, now, d8)
                        };
                    assert(self@ == v.handle_event(*event, now, d));
                }
            },
            MouseEvent::LeftButtonDown(_, _) => {
                self.on_modifier(GestureModifier::LeftButtonDown);
                assert(self@ == v.handle_event(*event, now, GestureDir::Up));
            },
            MouseEvent::RightButtonDown(x, y) => {
                self.on_button_down(
                    *x,
                    *y,
                    GestureTriggerButton::Right,
                    GestureModifier::RightButtonDown,
                    now,
                );
                assert(self@ == v.handle_event(*event, now, GestureDir::Up));
            },
            MouseEvent::MiddleButtonDown(x, y) => {
                self.on_button_down(
                    *x,
                    *y,
                    GestureTriggerButton::Middle,
                    GestureModifier::MiddleButtonDown,
                    now,
                );
                assert(self@ == v.handle_event(*event, now, GestureDir::Up));
            },
            MouseEvent::XButtonDown(x, y, n) => {
                if *n == 1 {
                    self.on_button_down(
                        *x,
                        *y,
                        GestureTriggerButton::X1,
                        GestureModifier::X1ButtonDown,
                        now,
                    );
                } else if *n == 2 {
                    self.on_button_down(
                        *x,
                        *y,
                        GestureTriggerButton::X2,
                        GestureModifier::X2ButtonDown,
                        now,
                    );
                }
                assert(self@ == v.handle_event(*event, now, GestureDir::Up));
            },
            MouseEvent::RightButtonUp(_, _) | MouseEvent::MiddleButtonUp(_, _)
            | MouseEvent::XButtonUp(_, _, _) => {
                if self.state == TrackerState::Tracking {
                    self.on_mouse_up();
                } else if self.state == TrackerState::Capturing {
                    // Released before moving past the minimum distance: nothing is recorded
                    self.reset();
                }
                assert(self@ == v.handle_event(*event, now, GestureDir::Up));
            },
            MouseEvent::MouseWheel(_, _, delta) => {
                let modifier = if *delta > 0 {
                    GestureModifier::WheelForward
                } else {
                    GestureModifier::WheelBackward
                };
                self.on_modifier(modifier);
                assert(self@ == v.handle_event(*event, now, GestureDir::Up));
            },
            _ => {
                assert(self@ == v.handle_event(*event, now, GestureDir::Up));
            },
        }
    }

    /// Handle a mouse event now (time read from the tracker's clock).
    pub fn handle_mouse_event<F: Fn(i64, i64) -> GestureDir>(
        &mut self,
        event: &MouseEvent,
        classify_8: &F,
    )
        requires
            old(self)@.well_formed(),
            forall|dx: i64, dy: i64| classify_8.requires((dx, dy)),
        ensures
            exists|now: u64, d8: GestureDir|
                {
                    &&& old(self)@.event_uses_classifier(*event) ==> classify_8.ensures(
                        (
                            old(self)@.stroke_dx(event.spec_position().0) as i64,
                            old(self)@.stroke_dy(event.spec_position().1) as i64,
                        ),
                        d8,
                    )
                    &&& final(self)@ == #[trigger] old(self)@.handle_event(*event, now, d8)
                },
            final(self)@.well_formed(),
    {
        let now = self.clock.now_millis();
        self.handle_mouse_event_at(event, now, classify_8);
    }

    /// Check for timeout at time `now`; true when the gesture was cancelled.
    pub fn check_timeout_at(&mut self, now: u64) -> (r: bool)
        requires
            old(self)@.well_formed(),
        ensures
            r == old(self)@.timed_out(now),
            final(self)@ == old(self)@.check_timeout(now),
            final(self)@.well_formed(),
    {
        proof {
            lemma_check_timeout_keeps_well_formed(self@, now);
        }
        if self.state == TrackerState::Tracking {
            if let Some(last_time) = self.last_effective_time {
                let timeout = self.settings.stay_timeout as u64;
                if now > last_time && now - last_time > timeout {
                    self.emit_event(TrackerEvent::GestureCancelled);
                    self.reset();
                    return true;
                }
            }
        }
        false
    }

    /// Check for timeout now (time read from the tracker's clock).
    pub fn check_timeout(&mut self) -> (r: bool)
        requires
            old(self)@.well_formed(),
        ensures
            exists|now: u64|
                r == old(self)@.timed_out(now) && final(self)@ == #[trigger] old(
                    self,
                )@.check_timeout(now),
            final(self)@.well_formed(),
    {
        let now = self.clock.now_millis();
        self.check_timeout_at(now)
    }

    /// Get the current state
    pub fn state(&self) -> (r: &TrackerState)
        ensures
            *r == self@.state,
    {
        &self.state
    }

    /// Get the current gesture
    pub fn current_gesture(&self) -> (r: Option<&Gesture>)
        ensures
            match r {
                Some(g) => self@.gesture == Some(g@),
                None => self@.gesture is None,
            },
    {
        match &self.current_gesture {
            Some(g) => Some(g),
            None => None,
        }
    }

    /// The settings the tracker works with.
    pub fn settings(&self) -> (r: &Settings)
        ensures
            *r == self@.settings,
    {
        &self.settings
    }

    /// Sets the most directions a gesture records; a gesture under way that already has
    /// more keeps only its first `max` directions.
    pub fn set_max_steps(&mut self, max: usize)
        requires
            old(self)@.well_formed(),
        ensures
            final(self)@ == old(self)@.with_max_steps(max),
            final(self)@.well_formed(),
    {
        let ghost target = self@.with_max_steps(max);
        self.max_steps = max;
        let mut cur: Option<Gesture> = None;
        std::mem::swap(&mut cur, &mut self.current_gesture);
        match cur {
            Some(mut g) => {
                let ghost before = g@;
                g.directions.truncate(max);
                proof {
                    lemma_prefix_keeps_well_formed(before, g@);
                    assert(old(self)@.gesture == Some(before));
                    if before.directions.len() > max {
                        assert(g@.directions =~= before.directions.take(max as int));
                    } else {
                        assert(g@.directions =~= before.directions);
                    }
                }
                self.current_gesture = Some(g);
                assert(self@ == target);
            },
            None => {},
        }
    }

    /// The most directions a gesture records.
    pub fn max_steps(&self) -> (r: usize)
        ensures
            r == self@.max_steps,
    {
        self.max_steps
    }
}

/// Whether the distance from `a` to `b` exceeds `threshold` pixels.
fn exceeds(a: &Point, b: &Point, threshold: u32) -> (r: bool)
    ensures
        r == beyond(*a, *b, threshold),
{
    let dx: i128 = a.x as i128 - b.x as i128;
    let dy: i128 = a.y as i128 - b.y as i128;
    let t: i128 = threshold as i128;
    assert(0 <= dx * dx <= 0x1_0000_0000_0000_0000) by (nonlinear_arith)
        requires
            -0x1_0000_0000 <= dx <= 0x1_0000_0000,
    ;
    assert(0 <= dy * dy <= 0x1_0000_0000_0000_0000) by (nonlinear_arith)
        requires
            -0x1_0000_0000 <= dy <= 0x1_0000_0000,
    ;
    assert(0 <= t * t <= 0x1_0000_0000_0000_0000) by (nonlinear_arith)
        requires
            0 <= t <= 0x1_0000_0000,
    ;
    dx * dx + dy * dy > t * t
}


/// Emitting an event other than a completed gesture keeps the tracker well formed.
/// A gesture cut down to a prefix of its directions stays well formed.
proof fn lemma_prefix_keeps_well_formed(g: GestureView, h: GestureView)
    requires
        g.well_formed(),
        h.directions.is_prefix_of(g.directions),
        h.modifiers == g.modifiers,
    ensures
        h.well_formed(),
{
    assert forall|i: int| 0 <= i < h.directions.len() - 1 implies #[trigger] h.directions[i]
        != h.directions[i + 1] by {
        assert(h.directions[i] == g.directions[i]);
        assert(h.directions[i + 1] == g.directions[i + 1]);
    }
}

proof fn lemma_emit_keeps_well_formed(v: TrackerView, e: TrackerEventView)
    requires
        v.well_formed(),
        e matches TrackerEventView::GestureCompleted(g) ==> g.directions.len() > 0 && g.well_formed(),
    ensures
        v.emit(e).well_formed(),
{
    let w = v.emit(e);
    assert forall|i: int| 0 <= i < w.events.len() implies (#[trigger] w.events[i] matches TrackerEventView::GestureCompleted(
        g,
    ) ==> g.directions.len() > 0 && g.well_formed()) by {
        if i < v.events.len() {
            assert(w.events[i] == v.events[i]);
        }
    }
}

/// Every mouse event leaves a well-formed tracker well formed: the tracker is idle
/// exactly when no gesture is under way, the gesture under way never repeats a
/// direction twice in a row nor holds a modifier twice, and every completed gesture
/// reported has at least one direction.
pub proof fn lemma_handle_event_keeps_well_formed(
    v: TrackerView,
    event: MouseEvent,
    now: u64,
    d8: GestureDir,
)
    requires
        v.well_formed(),
    ensures
        v.handle_event(event, now, d8).well_formed(),
{
    lemma_mouse_move_keeps_well_formed(v, event.spec_position().0, event.spec_position().1, now, d8);
    lemma_mouse_up_keeps_well_formed(v);
    assert(v.reset().well_formed());
    let ms = seq![
        GestureModifier::LeftButtonDown,
        GestureModifier::RightButtonDown,
        GestureModifier::MiddleButtonDown,
        GestureModifier::X1ButtonDown,
        GestureModifier::X2ButtonDown,
        GestureModifier::WheelForward,
        GestureModifier::WheelBackward,
    ];
    assert forall|i: int| 0 <= i < ms.len() implies (#[trigger] v.modifier(ms[i])).well_formed() by {
        lemma_modifier_keeps_well_formed(v, ms[i]);
    }
    assert(v.modifier(ms[0]).well_formed());
    assert(v.modifier(ms[1]).well_formed());
    assert(v.modifier(ms[2]).well_formed());
    assert(v.modifier(ms[3]).well_formed());
    assert(v.modifier(ms[4]).well_formed());
    assert(v.modifier(ms[5]).well_formed());
    assert(v.modifier(ms[6]).well_formed());
    let (x, y) = event.spec_position();
    let bs = seq![
        GestureTriggerButton::Right,
        GestureTriggerButton::Middle,
        GestureTriggerButton::X1,
        GestureTriggerButton::X2,
    ];
    assert forall|i: int| 0 <= i < bs.len() implies (#[trigger] v.mouse_down(x, y, bs[i], now)).well_formed() by {
        lemma_mouse_down_keeps_well_formed(v, x, y, bs[i], now);
    }
    assert(v.mouse_down(x, y, bs[0], now).well_formed());
    assert(v.mouse_down(x, y, bs[1], now).well_formed());
    assert(v.mouse_down(x, y, bs[2], now).well_formed());
    assert(v.mouse_down(x, y, bs[3], now).well_formed());
}

/// Starting a gesture keeps the tracker well formed.
proof fn lemma_mouse_down_keeps_well_formed(
    v: TrackerView,
    x: i32,
    y: i32,
    button: GestureTriggerButton,
    now: u64,
)
    requires
        v.well_formed(),
    ensures
        v.mouse_down(x, y, button, now).well_formed(),
{
    let w = v.mouse_down(x, y, button, now);
    assert(w.events == v.events);
    assert(w.gesture.unwrap().modifiers.no_duplicates());
}

/// A modifier keeps the tracker well formed.
proof fn lemma_modifier_keeps_well_formed(v: TrackerView, m: GestureModifier)
    requires
        v.well_formed(),
    ensures
        v.modifier(m).well_formed(),
{
    if v.state is Tracking {
        let g = v.gesture.unwrap();
        lemma_adding_keeps_well_formed(g, GestureDir::Up, m);
        let w = TrackerView {
            gesture: Some(GestureView { modifiers: with_modifier(g.modifiers, m), ..g }),
            ..v
        };
        assert(w.well_formed());
        lemma_emit_keeps_well_formed(w, TrackerEventView::ModifierDetected(m));
    }
}

/// Releasing the trigger keeps the tracker well formed.
proof fn lemma_mouse_up_keeps_well_formed(v: TrackerView)
    requires
        v.well_formed(),
    ensures
        v.mouse_up().well_formed(),
        v.mouse_up().state is Idle,
{
    match v.gesture {
        Some(g) => {
            if g.directions.len() > 0 {
                lemma_emit_keeps_well_formed(v, TrackerEventView::GestureCompleted(g));
            } else {
                lemma_emit_keeps_well_formed(v, TrackerEventView::GestureCancelled);
            }
        },
        None => {},
    }
}

/// A move keeps the tracker well formed.
proof fn lemma_mouse_move_keeps_well_formed(v: TrackerView, x: i32, y: i32, now: u64, d8: GestureDir)
    requires
        v.well_formed(),
    ensures
        v.mouse_move(x, y, now, d8).well_formed(),
{
    if v.move_counts(x, y) {
        let p = pt(x, y);
        let v0 = if v.state is Capturing {
            v.emit(TrackerEventView::GestureStarted(started_context(v.start_point.unwrap())))
        } else {
            v
        };
        if v.state is Capturing {
            lemma_emit_keeps_well_formed(
                v,
                TrackerEventView::GestureStarted(started_context(v.start_point.unwrap())),
            );
        }
        let v1 = TrackerView { state: TrackerState::Tracking, ..v0 };
        assert(v1.well_formed());
        if v.move_strokes(x, y) {
            let g = v.gesture.unwrap();
            let dirs = if g.directions.len() < v.max_steps {
                with_direction(g.directions, v.stroke_dir(x, y, d8))
            } else {
                g.directions
            };
            lemma_adding_keeps_well_formed(g, v.stroke_dir(x, y, d8), GestureModifier::WheelForward);
            let g2 = GestureView { directions: dirs, ..g };
            let v2 = TrackerView { gesture: Some(g2), last_effective_point: Some(p), ..v1 };
            assert(v2.well_formed());
            let v3 = if dirs.len() != g.directions.len() {
                v2.emit(TrackerEventView::GestureChanged(g2))
            } else {
                v2
            };
            if dirs.len() != g.directions.len() {
                lemma_emit_keeps_well_formed(v2, TrackerEventView::GestureChanged(g2));
            }
            lemma_emit_keeps_well_formed(v3, TrackerEventView::PositionUpdate(p));
        } else {
            lemma_emit_keeps_well_formed(v1, TrackerEventView::PositionUpdate(p));
        }
    }
}

/// A timeout check keeps the tracker well formed, and a gesture that timed out leaves
/// the tracker idle with a cancellation reported.
pub proof fn lemma_check_timeout_keeps_well_formed(v: TrackerView, now: u64)
    requires
        v.well_formed(),
    ensures
        v.check_timeout(now).well_formed(),
        v.timed_out(now) ==> v.check_timeout(now).state is Idle,
        v.timed_out(now) ==> v.check_timeout(now).events == v.events.push(
            TrackerEventView::GestureCancelled,
        ),
{
    if v.timed_out(now) {
        lemma_emit_keeps_well_formed(v, TrackerEventView::GestureCancelled);
    }
}

/// Events are only ever added at the end of the queue: handling a mouse event keeps
/// every event reported before it, in order.
pub proof fn lemma_handle_event_appends_events(v: TrackerView, event: MouseEvent, now: u64, d8: GestureDir)
    ensures
        v.events.is_prefix_of(v.handle_event(event, now, d8).events),
{
    let w = v.handle_event(event, now, d8);
    assert(v.events.len() <= w.events.len());
    assert forall|i: int| 0 <= i < v.events.len() implies v.events[i] == w.events[i] by {}
}

/// A gesture only starts being tracked once the pointer has moved farther than the
/// minimum distance from where the trigger was pressed.
pub proof fn lemma_tracking_starts_beyond_min_distance(v: TrackerView, x: i32, y: i32, now: u64, d8: GestureDir)
    requires
        v.state is Capturing,
        v.mouse_move(x, y, now, d8).state is Tracking,
    ensures
        beyond(v.start_point.unwrap(), pt(x, y), v.settings.min_distance),
{
}

/// Releasing the trigger while tracking always ends the gesture: the tracker is idle
/// afterwards and the last event reported is the completed gesture (when it has
/// directions) or a cancellation (when it has none).
pub proof fn lemma_release_ends_gesture(v: TrackerView)
    requires
        v.well_formed(),
        v.state is Tracking,
    ensures
        v.button_up().state is Idle,
        v.gesture.unwrap().directions.len() > 0 ==> v.button_up().events == v.events.push(
            TrackerEventView::GestureCompleted(v.gesture.unwrap()),
        ),
        v.gesture.unwrap().directions.len() == 0 ==> v.button_up().events == v.events.push(
            TrackerEventView::GestureCancelled,
        ),
{
}

/// Every gesture reported from position `from` of `events` on (changed or completed)
/// has at most `max` directions.
pub open spec fn reports_within(events: Seq<TrackerEventView>, from: int, max: usize) -> bool {
    forall|i: int|
        from <= i < events.len() ==> match #[trigger] events[i] {
            TrackerEventView::GestureChanged(g) => g.directions.len() <= max,
            TrackerEventView::GestureCompleted(g) => g.directions.len() <= max,
            _ => true,
        }
}

/// The tracker after handling each of `steps` in turn; a step is a mouse event, the
/// time it is handled at, and the 8-direction classification of its stroke.
pub open spec fn run_events(v: TrackerView, steps: Seq<(MouseEvent, u64, GestureDir)>) -> TrackerView
    decreases steps.len(),
{
    if steps.len() == 0 {
        v
    } else {
        run_events(v.handle_event(steps[0].0, steps[0].1, steps[0].2), steps.drop_first())
    }
}

/// A gesture stops at its first `max_steps` directions: handling any event keeps the
/// gesture under way within the limit, and every gesture the event reports (changed or
/// completed) keeps within the limit too. In particular, once the gesture has
/// `max_steps` directions, no direction is added.
pub proof fn lemma_steps_stay_within_max(v: TrackerView, event: MouseEvent, now: u64, d8: GestureDir)
    requires
        v.well_formed(),
    ensures
        ({
            let w = v.handle_event(event, now, d8);
            &&& w.max_steps == v.max_steps
            &&& (w.gesture matches Some(g) ==> g.directions.len() <= w.max_steps)
            &&& reports_within(w.events, v.events.len() as int, v.max_steps)
        }),
{
    let w = v.handle_event(event, now, d8);
    lemma_handle_event_keeps_well_formed(v, event, now, d8);
    match event {
        MouseEvent::MouseMove(x, y) => {
            if v.move_counts(x, y) && v.move_strokes(x, y) {
                let g = v.gesture.unwrap();
                let d = v.stroke_dir(x, y, d8);
                let dirs = if g.directions.len() < v.max_steps {
                    with_direction(g.directions, d)
                } else {
                    g.directions
                };
                assert(dirs.len() <= v.max_steps);
                let g2 = GestureView { directions: dirs, ..g };
                assert forall|i: int| v.events.len() <= i < w.events.len() implies match #[trigger] w.events[i] {
                    TrackerEventView::GestureChanged(g) => g.directions.len() <= v.max_steps,
                    TrackerEventView::GestureCompleted(g) => g.directions.len() <= v.max_steps,
                    _ => true,
                } by {
                    if dirs.len() != g.directions.len() && w.events[i] is GestureChanged {
                        assert(w.events[i] == TrackerEventView::GestureChanged(g2));
                    }
                }
            }
        },
        _ => {},
    }
}

/// The step limit holds over any run of events: from a consistent tracker, after any
/// sequence of mouse events the gesture under way has at most `max_steps` directions,
/// and so has every gesture reported along the way (changed or completed); the events
/// reported before the run stay where they were.
pub proof fn lemma_step_limit_holds_over_events(v: TrackerView, steps: Seq<(MouseEvent, u64, GestureDir)>)
    requires
        v.well_formed(),
    ensures
        ({
            let w = run_events(v, steps);
            &&& w.well_formed()
            &&& w.max_steps == v.max_steps
            &&& (w.gesture matches Some(g) ==> g.directions.len() <= v.max_steps)
            &&& v.events.is_prefix_of(w.events)
            &&& reports_within(w.events, v.events.len() as int, v.max_steps)
        }),
    decreases steps.len(),
{
    if steps.len() > 0 {
        let (event, now, d8) = steps[0];
        let v1 = v.handle_event(event, now, d8);
        lemma_handle_event_keeps_well_formed(v, event, now, d8);
        lemma_steps_stay_within_max(v, event, now, d8);
        lemma_handle_event_appends_events(v, event, now, d8);
        lemma_step_limit_holds_over_events(v1, steps.drop_first());
        let w = run_events(v, steps);
        assert(w == run_events(v1, steps.drop_first()));
        assert forall|i: int| v.events.len() <= i < w.events.len() implies match #[trigger] w.events[i] {
            TrackerEventView::GestureChanged(g) => g.directions.len() <= v.max_steps,
            TrackerEventView::GestureCompleted(g) => g.directions.len() <= v.max_steps,
            _ => true,
        } by {
            if i < v1.events.len() {
                assert(w.events[i] == v1.events[i]);
            }
        }
        assert(v.events.is_prefix_of(w.events)) by {
            assert forall|i: int| 0 <= i < v.events.len() implies v.events[i] == w.events[i] by {
                assert(v.events[i] == v1.events[i]);
                assert(v1.events[i] == w.events[i]);
            }
        }
    }
}

/// Once the gesture under way has `max_steps` directions, a move records no further
/// direction.
pub proof fn lemma_no_direction_past_max(v: TrackerView, x: i32, y: i32, now: u64, d8: GestureDir)
    requires
        v.gesture matches Some(g) && g.directions.len() >= v.max_steps,
    ensures
        v.mouse_move(x, y, now, d8).gesture.unwrap().directions == v.gesture.unwrap().directions,
{
}

/// Releasing the trigger before the pointer moved past the minimum distance records no
/// gesture: the tracker goes idle and reports nothing.
pub proof fn lemma_release_while_capturing_records_nothing(v: TrackerView)
    requires
        v.state is Capturing,
    ensures
        v.button_up().state is Idle,
        v.button_up().gesture is None,
        v.button_up().events == v.events,
{
}

/// Moves too short to add a stroke do not put off the stay timeout: after such a move
/// the tracker times out exactly when it would have without it.
pub proof fn lemma_short_moves_keep_timeout(v: TrackerView, x: i32, y: i32, now: u64, d8: GestureDir, later: u64)
    requires
        v.state is Tracking,
        !v.move_strokes(x, y),
    ensures
        v.mouse_move(x, y, now, d8).timed_out(later) == v.timed_out(later),
{
}

/// Turning the wheel while a gesture is tracked records the way it turned: a forward
/// turn (positive delta) adds the modifier WheelForward to the gesture and reports
/// ModifierDetected(WheelForward); a backward turn (zero or negative delta) does the
/// same with WheelBackward. The other wheel modifier is neither added nor removed, the
/// directions stay, and the gesture goes on being tracked.
pub proof fn lemma_wheel_turn_sets_its_modifier(
    v: TrackerView,
    x: i32,
    y: i32,
    delta: i32,
    now: u64,
    d8: GestureDir,
)
    requires
        v.well_formed(),
        v.state is Tracking,
    ensures
        ({
            let w = v.handle_event(MouseEvent::MouseWheel(x, y, delta), now, d8);
            let turned = if delta > 0 {
                GestureModifier::WheelForward
            } else {
                GestureModifier::WheelBackward
            };
            let other = if delta > 0 {
                GestureModifier::WheelBackward
            } else {
                GestureModifier::WheelForward
            };
            &&& w.state is Tracking
            &&& w.gesture.unwrap().modifiers.contains(turned)
            &&& w.gesture.unwrap().modifiers.contains(other) == v.gesture.unwrap().modifiers.contains(other)
            &&& w.gesture.unwrap().directions == v.gesture.unwrap().directions
            &&& w.events == v.events.push(TrackerEventView::ModifierDetected(turned))
        }),
{
    let g = v.gesture.unwrap();
    let turned = if delta > 0 {
        GestureModifier::WheelForward
    } else {
        GestureModifier::WheelBackward
    };
    let other = if delta > 0 {
        GestureModifier::WheelBackward
    } else {
        GestureModifier::WheelForward
    };
    let ms = with_modifier(g.modifiers, turned);
    if !g.modifiers.contains(turned) {
        assert(ms[ms.len() - 1] == turned);
        assert(ms.contains(turned));
        assert(ms.contains(other) ==> g.modifiers.contains(other)) by {
            if ms.contains(other) {
                let k = choose|k: int| 0 <= k < ms.len() && ms[k] == other;
                assert(k < g.modifiers.len());
                assert(g.modifiers[k] == other);
            }
        }
        assert(g.modifiers.contains(other) ==> ms.contains(other)) by {
            if g.modifiers.contains(other) {
                let k = choose|k: int| 0 <= k < g.modifiers.len() && g.modifiers[k] == other;
                assert(ms[k] == other);
            }
        }
    }
}

/// Pressing another button while a gesture is tracked records that button as a
/// modifier (it does not start a new gesture): the left button adds LeftButtonDown,
/// the right RightButtonDown, the middle MiddleButtonDown, the first and second extra
/// buttons X1ButtonDown and X2ButtonDown; the press is reported as that modifier, the
/// directions stay and the gesture goes on being tracked.
pub proof fn lemma_other_button_press_is_modifier(v: TrackerView, event: MouseEvent, now: u64, d8: GestureDir)
    requires
        v.well_formed(),
        v.state is Tracking,
        match event {
            MouseEvent::LeftButtonDown(..) => true,
            MouseEvent::RightButtonDown(..) => v.gesture.unwrap().trigger_button != GestureTriggerButton::Right,
            MouseEvent::MiddleButtonDown(..) => v.gesture.unwrap().trigger_button
                != GestureTriggerButton::Middle,
            MouseEvent::XButtonDown(_, _, n) => (n == 1 && v.gesture.unwrap().trigger_button
                != GestureTriggerButton::X1) || (n == 2 && v.gesture.unwrap().trigger_button
                != GestureTriggerButton::X2),
            _ => false,
        },
    ensures
        ({
            let w = v.handle_event(event, now, d8);
            let m = match event {
                MouseEvent::LeftButtonDown(..) => GestureModifier::LeftButtonDown,
                MouseEvent::RightButtonDown(..) => GestureModifier::RightButtonDown,
                MouseEvent::MiddleButtonDown(..) => GestureModifier::MiddleButtonDown,
                MouseEvent::XButtonDown(_, _, n) => if n == 1 {
                    GestureModifier::X1ButtonDown
                } else {
                    GestureModifier::X2ButtonDown
                },
                _ => GestureModifier::LeftButtonDown,
            };
            &&& w.state is Tracking
            &&& w.gesture.unwrap().trigger_button == v.gesture.unwrap().trigger_button
            &&& w.gesture.unwrap().modifiers.contains(m)
            &&& w.gesture.unwrap().directions == v.gesture.unwrap().directions
            &&& w.events == v.events.push(TrackerEventView::ModifierDetected(m))
        }),
{
    let g = v.gesture.unwrap();
    let m = match event {
        MouseEvent::LeftButtonDown(..) => GestureModifier::LeftButtonDown,
        MouseEvent::RightButtonDown(..) => GestureModifier::RightButtonDown,
        MouseEvent::MiddleButtonDown(..) => GestureModifier::MiddleButtonDown,
        MouseEvent::XButtonDown(_, _, n) => if n == 1 {
            GestureModifier::X1ButtonDown
        } else {
            GestureModifier::X2ButtonDown
        },
        _ => GestureModifier::LeftButtonDown,
    };
    let ms = with_modifier(g.modifiers, m);
    if !g.modifiers.contains(m) {
        assert(ms[ms.len() - 1] == m);
    }
}

} // verus!
