//! Gesture data structures used while a gesture is being recognized.
use vstd::prelude::*;
use vstd::string::*;
use crate::text::{join, concat, views, join_strings};

verus! {

/// Mouse button that can start a gesture.
#[derive(Debug, Clone, Copy, PartialEq, Eq, Hash, Structural)]
pub enum GestureTriggerButton {
    Right,
    Middle,
    X1,
    X2,
}

impl GestureTriggerButton {
    /// The button's name ("Right", "Middle", "X1", "X2").
    pub open spec fn spec_name(self) -> Seq<char> {
        match self {
            GestureTriggerButton::Right => "Right"@,
            GestureTriggerButton::Middle => "Middle"@,
            GestureTriggerButton::X1 => "X1"@,
            GestureTriggerButton::X2 => "X2"@,
        }
    }

    /// The short letter used in compact displays ("R", "M", "X1", "X2").
    pub open spec fn spec_letter(self) -> Seq<char> {
        match self {
            GestureTriggerButton::Right => "R"@,
            GestureTriggerButton::Middle => "M"@,
            GestureTriggerButton::X1 => "X1"@,
            GestureTriggerButton::X2 => "X2"@,
        }
    }

    /// The prefix of configuration keys for gestures started with this button.
    pub open spec fn spec_key_prefix(self) -> Seq<char> {
        match self {
            GestureTriggerButton::Right => "R_"@,
            GestureTriggerButton::Middle => "M_"@,
            GestureTriggerButton::X1 => "X1_"@,
            GestureTriggerButton::X2 => "X2_"@,
        }
    }

    /// The button's name, as it is displayed.
    pub fn name(&self) -> (r: &'static str)
        ensures
            r@ == self.spec_name(),
    {
        match self {
            GestureTriggerButton::Right => "Right",
            GestureTriggerButton::Middle => "Middle",
            GestureTriggerButton::X1 => "X1",
            GestureTriggerButton::X2 => "X2",
        }
    }

    /// The button's name as an owned string (the text of its display form).
    pub fn to_display_string(&self) -> (r: String)
        ensures
            r@ == self.spec_name(),
    {
        String::from_str(self.name())
    }

    /// The short letter used in compact displays.
    pub fn letter(&self) -> (r: &'static str)
        ensures
            r@ == self.spec_letter(),
    {
        match self {
            GestureTriggerButton::Right => "R",
            GestureTriggerButton::Middle => "M",
            GestureTriggerButton::X1 => "X1",
            GestureTriggerButton::X2 => "X2",
        }
    }

    /// The prefix of configuration keys for this button ("R_", "M_", "X1_", "X2_").
    pub fn key_prefix(&self) -> (r: &'static str)
        ensures
            r@ == self.spec_key_prefix(),
    {
        match self {
            GestureTriggerButton::Right => "R_",
            GestureTriggerButton::Middle => "M_",
            GestureTriggerButton::X1 => "X1_",
            GestureTriggerButton::X2 => "X2_",
        }
    }
}

/// Stroke direction of a gesture (cardinal and diagonal).
#[derive(Debug, Clone, Copy, PartialEq, Eq, Hash, Structural)]
pub enum GestureDir {
    Up,
    Down,
    Left,
    Right,
    UpLeft,
    UpRight,
    DownLeft,
    DownRight,
}

/// Separator used between direction names in configuration keys (e.g. "Right → Down").
pub const GESTURE_DIR_SEPARATOR: &'static str = " → ";

/// The separator between direction names, as characters.
pub open spec fn separator() -> Seq<char> {
    " → "@
}

impl GestureDir {
    /// Direction name used in configuration keys.
    pub open spec fn spec_dir_name(self) -> Seq<char> {
        match self {
            GestureDir::Up => "Up"@,
            GestureDir::Down => "Down"@,
            GestureDir::Left => "Left"@,
            GestureDir::Right => "Right"@,
            GestureDir::UpLeft => "UpLeft"@,
            GestureDir::UpRight => "UpRight"@,
            GestureDir::DownLeft => "DownLeft"@,
            GestureDir::DownRight => "DownRight"@,
        }
    }

    /// Plain arrow used in the gesture display string.
    pub open spec fn spec_plain_arrow(self) -> Seq<char> {
        match self {
            GestureDir::Up => "↑"@,
            GestureDir::Down => "↓"@,
            GestureDir::Left => "←"@,
            GestureDir::Right => "→"@,
            GestureDir::UpLeft => "↖"@,
            GestureDir::UpRight => "↗"@,
            GestureDir::DownLeft => "↙"@,
            GestureDir::DownRight => "↘"@,
        }
    }

    /// Emoji arrow used in the short display.
    pub open spec fn spec_arrow(self) -> Seq<char> {
        match self {
            GestureDir::Up => "⬆️"@,
            GestureDir::Down => "⬇️"@,
            GestureDir::Left => "⬅️"@,
            GestureDir::Right => "➡️"@,
            GestureDir::UpLeft => "↖️"@,
            GestureDir::UpRight => "↗️"@,
            GestureDir::DownLeft => "↙️"@,
            GestureDir::DownRight => "↘️"@,
        }
    }

    /// True for the four diagonal directions.
    pub open spec fn spec_is_diagonal(self) -> bool {
        self is UpLeft || self is UpRight || self is DownLeft || self is DownRight
    }

    /// The 4-direction equivalent: diagonals fold onto Up or Down.
    pub open spec fn spec_to_cardinal(self) -> GestureDir {
        match self {
            GestureDir::UpLeft | GestureDir::UpRight => GestureDir::Up,
            GestureDir::DownLeft | GestureDir::DownRight => GestureDir::Down,
            _ => self,
        }
    }

    /// Get the direction name used as config key (e.g., "Up", "Down", "UpLeft")
    pub fn dir_name(&self) -> (r: &'static str)
        ensures
            r@ == self.spec_dir_name(),
    {
        match self {
            GestureDir::Up => "Up",
            GestureDir::Down => "Down",
            GestureDir::Left => "Left",
            GestureDir::Right => "Right",
            GestureDir::UpLeft => "UpLeft",
            GestureDir::UpRight => "UpRight",
            GestureDir::DownLeft => "DownLeft",
            GestureDir::DownRight => "DownRight",
        }
    }

    /// Check if this is a diagonal direction
    pub fn is_diagonal(&self) -> (r: bool)
        ensures
            r == self.spec_is_diagonal(),
    {
        match self {
            GestureDir::UpLeft | GestureDir::UpRight | GestureDir::DownLeft
            | GestureDir::DownRight => true,
            _ => false,
        }
    }

    /// Convert to 4-direction equivalent
    pub fn to_cardinal(&self) -> (r: GestureDir)
        ensures
            r == self.spec_to_cardinal(),
            !r.spec_is_diagonal(),
    {
        match self {
            GestureDir::UpLeft | GestureDir::UpRight => GestureDir::Up,
            GestureDir::DownLeft | GestureDir::DownRight => GestureDir::Down,
            _ => *self,
        }
    }

    /// Get arrow emoji for this direction
    pub fn arrow(&self) -> (r: &'static str)
        ensures
            r@ == self.spec_arrow(),
    {
        match self {
            GestureDir::Up => "⬆️",
            GestureDir::Down => "⬇️",
            GestureDir::Left => "⬅️",
            GestureDir::Right => "➡️",
            GestureDir::UpLeft => "↖️",
            GestureDir::UpRight => "↗️",
            GestureDir::DownLeft => "↙️",
            GestureDir::DownRight => "↘️",
        }
    }

    /// Plain arrow for this direction (used by the display string).
    pub fn plain_arrow(&self) -> (r: &'static str)
        ensures
            r@ == self.spec_plain_arrow(),
    {
        match self {
            GestureDir::Up => "↑",
            GestureDir::Down => "↓",
            GestureDir::Left => "←",
            GestureDir::Right => "→",
            GestureDir::UpLeft => "↖",
            GestureDir::UpRight => "↗",
            GestureDir::DownLeft => "↙",
            GestureDir::DownRight => "↘",
        }
    }
}

/// Gesture modifier detected during gesture tracking
#[derive(Debug, Clone, Copy, PartialEq, Eq, Hash, Structural)]
pub enum GestureModifier {
    LeftButtonDown,
    RightButtonDown,
    MiddleButtonDown,
    X1ButtonDown,
    X2ButtonDown,
    WheelForward,
    WheelBackward,
}

impl GestureModifier {
    /// True for the two scroll-wheel modifiers.
    pub open spec fn spec_is_scroll(self) -> bool {
        self is WheelForward || self is WheelBackward
    }

    /// Check if this modifier is a scroll wheel modifier
    pub fn is_scroll(&self) -> (r: bool)
        ensures
            r == self.spec_is_scroll(),
    {
        match self {
            GestureModifier::WheelForward | GestureModifier::WheelBackward => true,
            _ => false,
        }
    }
}

/// `s` has no two equal neighbours.
pub open spec fn no_adjacent_repeats(s: Seq<GestureDir>) -> bool {
    forall|i: int| 0 <= i < s.len() - 1 ==> #[trigger] s[i] != s[i + 1]
}

/// The direction sequence after adding `dir`: unchanged when `dir` repeats the last one.
pub open spec fn with_direction(s: Seq<GestureDir>, dir: GestureDir) -> Seq<GestureDir> {
    if s.len() > 0 && s.last() == dir {
        s
    } else {
        s.push(dir)
    }
}

/// The modifier sequence after adding `m`: unchanged when `m` is already present.
pub open spec fn with_modifier(s: Seq<GestureModifier>, m: GestureModifier) -> Seq<GestureModifier> {
    if s.contains(m) {
        s
    } else {
        s.push(m)
    }
}

/// Abstract value of a gesture.
pub struct GestureView {
    pub trigger_button: GestureTriggerButton,
    pub directions: Seq<GestureDir>,
    pub modifiers: Seq<GestureModifier>,
}

/// A gesture being tracked
#[derive(Debug, Clone)]
pub struct Gesture {
    /// Trigger button that started this gesture
    pub trigger_button: GestureTriggerButton,
    /// Sequence of directions
    pub directions: Vec<GestureDir>,
    /// Modifiers detected during gesture
    pub modifiers: Vec<GestureModifier>,
}

impl View for Gesture {
    type V = GestureView;

    open spec fn view(&self) -> GestureView {
        GestureView {
            trigger_button: self.trigger_button,
            directions: self.directions@,
            modifiers: self.modifiers@,
        }
    }
}

impl GestureView {
    /// The invariant that every gesture built with `add_direction` and `add_modifier` keeps.
    pub open spec fn well_formed(self) -> bool {
        &&& no_adjacent_repeats(self.directions)
        &&& self.modifiers.no_duplicates()
    }

    /// The plain display string: arrows joined by " → ".
    pub open spec fn spec_display_string(self) -> Seq<char> {
        join(self.directions.map_values(|d: GestureDir| d.spec_plain_arrow()), separator())
    }

    /// The short display: button letter, a space, then the emoji arrows.
    pub open spec fn spec_short_display(self) -> Seq<char> {
        self.trigger_button.spec_letter() + " "@ + concat(
            self.directions.map_values(|d: GestureDir| d.spec_arrow()),
        )
    }
}

impl Gesture {
    /// Create a new gesture
    pub fn new(trigger_button: GestureTriggerButton) -> (g: Self)
        ensures
            g@.trigger_button == trigger_button,
            g@.directions == Seq::<GestureDir>::empty(),
            g@.modifiers == Seq::<GestureModifier>::empty(),
            g@.well_formed(),
    {
        Gesture { trigger_button, directions: Vec::new(), modifiers: Vec::new() }
    }

    /// An exact copy of this gesture.
    pub fn duplicate(&self) -> (r: Self)
        ensures
            r@ == self@,
    {
        let mut directions: Vec<GestureDir> = Vec::new();
        let mut i: usize = 0;
        while i < self.directions.len()
            invariant
                i <= self.directions.len(),
                directions@ == self.directions@.take(i as int),
            decreases self.directions.len() - i,
        {
            directions.push(self.directions[i]);
            i = i + 1;
            assert(directions@ =~= self.directions@.take(i as int));
        }
        let mut modifiers: Vec<GestureModifier> = Vec::new();
        let mut j: usize = 0;
        while j < self.modifiers.len()
            invariant
                j <= self.modifiers.len(),
                modifiers@ == self.modifiers@.take(j as int),
            decreases self.modifiers.len() - j,
        {
            modifiers.push(self.modifiers[j]);
            j = j + 1;
            assert(modifiers@ =~= self.modifiers@.take(j as int));
        }
        assert(directions@ =~= self.directions@);
        assert(modifiers@ =~= self.modifiers@);
        Gesture { trigger_button: self.trigger_button, directions, modifiers }
    }

    /// Add a direction to the gesture (only if different from the last direction)
    pub fn add_direction(&mut self, dir: GestureDir)
        ensures
            final(self)@.directions == with_direction(old(self)@.directions, dir),
            final(self)@.modifiers == old(self)@.modifiers,
            final(self)@.trigger_button == old(self)@.trigger_button,
    {
        let n = self.directions.len();
        if n == 0 || self.directions[n - 1] != dir {
            self.directions.push(dir);
        }
    }

    /// Add a modifier to the gesture (only if not already present)
    pub fn add_modifier(&mut self, modifier: GestureModifier)
        ensures
            final(self)@.modifiers == with_modifier(old(self)@.modifiers, modifier),
            final(self)@.directions == old(self)@.directions,
            final(self)@.trigger_button == old(self)@.trigger_button,
    {
        let mut found = false;
        let mut i: usize = 0;
        while i < self.modifiers.len()
            invariant
                i <= self.modifiers.len(),
                found == exists|j: int| 0 <= j < i && self.modifiers@[j] == modifier,
            decreases self.modifiers.len() - i,
        {
            if self.modifiers[i] == modifier {
                found = true;
            }
            i = i + 1;
        }
        if !found {
            self.modifiers.push(modifier);
        }
    }

    /// Check if gesture is empty
    pub fn is_empty(&self) -> (r: bool)
        ensures
            r == (self@.directions.len() == 0),
    {
        self.directions.len() == 0
    }

    /// Get the number of directions
    pub fn len(&self) -> (r: usize)
        ensures
            r == self@.directions.len(),
    {
        self.directions.len()
    }

    /// Get the last direction
    pub fn last(&self) -> (r: Option<&GestureDir>)
        ensures
            self@.directions.len() == 0 ==> r is None,
            self@.directions.len() > 0 ==> r == Some(&self@.directions.last()),
    {
        let n = self.directions.len();
        if n == 0 {
            None
        } else {
            Some(&self.directions[n - 1])
        }
    }

    /// Create a display string for the gesture ("→ → ↓" for Right, Down)
    pub fn display_string(&self) -> (r: String)
        ensures
            r@ == self@.spec_display_string(),
    {
        let mut parts: Vec<String> = Vec::new();
        let mut i: usize = 0;
        while i < self.directions.len()
            invariant
                i <= self.directions.len(),
                parts@.len() == i,
                forall|k: int| 0 <= k < i ==> #[trigger] parts@[k]@ == self.directions@[k].spec_plain_arrow(),
            decreases self.directions.len() - i,
        {
            let s = String::from_str(self.directions[i].plain_arrow());
            parts.push(s);
            i = i + 1;
        }
        assert(views(parts@) =~= self.directions@.map_values(|d: GestureDir| d.spec_plain_arrow()));
        join_strings(&parts, GESTURE_DIR_SEPARATOR)
    }

    /// Create a short display string with trigger button (e.g., "M ⬆️➡️⬇️")
    pub fn short_display(&self) -> (r: String)
        ensures
            r@ == self@.spec_short_display(),
    {
        let mut parts: Vec<String> = Vec::new();
        let mut i: usize = 0;
        while i < self.directions.len()
            invariant
                i <= self.directions.len(),
                parts@.len() == i,
                forall|k: int| 0 <= k < i ==> #[trigger] parts@[k]@ == self.directions@[k].spec_arrow(),
            decreases self.directions.len() - i,
        {
            let s = String::from_str(self.directions[i].arrow());
            parts.push(s);
            i = i + 1;
        }
        assert(views(parts@) =~= self.directions@.map_values(|d: GestureDir| d.spec_arrow()));
        let arrows = join_strings(&parts, "");
        proof {
            reveal_strlit("");
            assert(""@ =~= Seq::<char>::empty());
        }
        let mut r = String::from_str(self.trigger_button.letter());
        r.append(" ");
        r.append(arrows.as_str());
        r
    }

    /// The text of the gesture's display form (its display string).
    pub fn to_display_string(&self) -> (r: String)
        ensures
            r@ == self@.spec_display_string(),
    {
        self.display_string()
    }
}

/// Adding a direction keeps a gesture free of adjacent repeats, and adding a modifier
/// keeps its modifiers free of duplicates.
pub proof fn lemma_adding_keeps_well_formed(g: GestureView, d: GestureDir, m: GestureModifier)
    requires
        g.well_formed(),
    ensures
        no_adjacent_repeats(with_direction(g.directions, d)),
        with_modifier(g.modifiers, m).no_duplicates(),
        with_modifier(g.modifiers, m).contains(m),
        with_direction(g.directions, d).last() == d,
{
    let s = with_direction(g.directions, d);
    assert forall|i: int| 0 <= i < s.len() - 1 implies #[trigger] s[i] != s[i + 1] by {
        if !(g.directions.len() > 0 && g.directions.last() == d) && i == s.len() - 2 {
            assert(s[i] == g.directions.last());
        } else {
            assert(s[i] == g.directions[i]);
            assert(s[i + 1] == g.directions[i + 1]);
        }
    }
    let t = with_modifier(g.modifiers, m);
    if !g.modifiers.contains(m) {
        assert forall|i: int, j: int| 0 <= i < t.len() && 0 <= j < t.len() && i != j implies t[i]
            != t[j] by {
            if i == t.len() - 1 {
                assert(g.modifiers[j] == t[j]);
            } else if j == t.len() - 1 {
                assert(g.modifiers[i] == t[i]);
            }
        }
        assert(t[t.len() - 1] == m);
    }
}

/// Point in 2D space
#[derive(Debug, Clone, Copy, PartialEq, Eq, Structural)]
pub struct Point {
    pub x: i32,
    pub y: i32,
}

impl Point {
    /// The point (`x`, `y`).
    pub fn new(x: i32, y: i32) -> (p: Self)
        ensures
            p.x == x,
            p.y == y,
    {
        Point { x, y }
    }

    /// Calculate vector from this point to another
    pub fn vector_to(&self, other: &Point) -> (v: Point)
        requires
            i32::MIN <= other.x - self.x <= i32::MAX,
            i32::MIN <= other.y - self.y <= i32::MAX,
        ensures
            v.x == other.x - self.x,
            v.y == other.y - self.y,
    {
        Point { x: other.x - self.x, y: other.y - self.y }
    }

    /// Squared Euclidean distance to another point.
    pub open spec fn spec_distance_squared(self, other: Point) -> int {
        (self.x - other.x) * (self.x - other.x) + (self.y - other.y) * (self.y - other.y)
    }
}

/// Gesture context information
#[derive(Debug, Clone)]
pub struct GestureContext {
    /// Starting point of the gesture
    pub start_point: Point,
    /// Current point
    pub current_point: Point,
    /// Active window handle
    pub window_handle: Option<isize>,
    /// Process ID of active application
    pub process_id: Option<u32>,
    /// Is the application in fullscreen mode?
    pub is_fullscreen: bool,
}

impl GestureContext {
    /// The context of a gesture started at `start_point`.
    pub fn new(start_point: Point) -> (c: Self)
        ensures
            c.start_point == start_point,
            c.current_point == start_point,
            c.window_handle is None,
            c.process_id is None,
            !c.is_fullscreen,
    {
        GestureContext {
            start_point,
            current_point: start_point,
            window_handle: None,
            process_id: None,
            is_fullscreen: false,
        }
    }
}

} // verus!
