//! Configuration data structures.
use vstd::prelude::*;
use vstd::string::*;
use crate::text::{join, views, join_strings, lemma_push_to_set};
use crate::strmap::{StrMap, StrSet};

verus! {

/// Gesture direction (4-direction or 8-direction)
#[derive(Debug, Clone, Copy, PartialEq, Eq, Hash, Structural)]
pub enum GestureDir {
    Up,
    Down,
    Left,
    Right,
    // Diagonal directions (only for first stroke in 8-direction mode)
    UpLeft,
    UpRight,
    DownLeft,
    DownRight,
}

impl GestureDir {
    /// The arrow shown for the direction.
    pub open spec fn spec_as_str(self) -> Seq<char> {
        match self {
            GestureDir::Up => "↑"@,
            GestureDir::Down => "↓"@,
            GestureDir::Left => "←"@,
            GestureDir::Right => "→"@,
            GestureDir::UpLeft => "↖"@,
            GestureDir::UpRight => "↗"@,
            GestureDir::DownLeft => "↙"@,
            GestureDir::DownRight => "↘"@,
        }
    }

    /// Convert to display name
    pub fn as_str(&self) -> (r: &'static str)
        ensures
            r@ == self.spec_as_str(),
    {
        match self {
            GestureDir::Up => "↑",
            GestureDir::Down => "↓",
            GestureDir::Left => "←",
            GestureDir::Right => "→",
            GestureDir::UpLeft => "↖",
            GestureDir::UpRight => "↗",
            GestureDir::DownLeft => "↙",
            GestureDir::DownRight => "↘",
        }
    }
}

/// Gesture modifier keys
#[derive(Debug, Clone, Copy, PartialEq, Eq, Hash, Structural)]
pub enum GestureModifier {
    LeftButtonDown,
    RightButtonDown,
    MiddleButtonDown,
    X1ButtonDown,
    X2ButtonDown,
    WheelForward,
    WheelBackward,
}

/// A gesture consisting of a sequence of directions and optional modifiers
#[derive(Debug, Clone)]
pub struct Gesture {
    pub directions: Vec<GestureDir>,
    pub modifiers: Vec<GestureModifier>,
}

impl Gesture {
    /// Create a new gesture from directions
    pub fn new(directions: Vec<GestureDir>) -> (g: Self)
        ensures
            g.directions@ == directions@,
            g.modifiers@ == Seq::<GestureModifier>::empty(),
    {
        Gesture { directions, modifiers: Vec::new() }
    }

    /// Add a modifier to the gesture
    pub fn with_modifier(self, modifier: GestureModifier) -> (g: Self)
        ensures
            g.directions@ == self.directions@,
            g.modifiers@ == self.modifiers@.push(modifier),
    {
        let mut g = self;
        g.modifiers.push(modifier);
        g
    }

    /// Check if gesture is empty
    pub fn is_empty(&self) -> (r: bool)
        ensures
            r == (self.directions@.len() == 0),
    {
        self.directions.len() == 0
    }

    /// Get the number of directions in the gesture
    pub fn len(&self) -> (r: usize)
        ensures
            r == self.directions@.len(),
    {
        self.directions.len()
    }
}

/// Mouse button used by a mouse action
#[derive(Debug, Clone, Copy, PartialEq, Eq, Structural)]
pub enum MouseButton {
    Left,
    Right,
    Middle,
    X1,
    X2,
}

impl MouseButton {
    /// The button's name.
    pub open spec fn spec_as_str(self) -> Seq<char> {
        match self {
            MouseButton::Left => "Left"@,
            MouseButton::Right => "Right"@,
            MouseButton::Middle => "Middle"@,
            MouseButton::X1 => "X1"@,
            MouseButton::X2 => "X2"@,
        }
    }

    /// The button's name ("Left", "Right", "Middle", "X1", "X2").
    pub fn as_str(&self) -> (r: &'static str)
        ensures
            r@ == self.spec_as_str(),
    {
        match self {
            MouseButton::Left => "Left",
            MouseButton::Right => "Right",
            MouseButton::Middle => "Middle",
            MouseButton::X1 => "X1",
            MouseButton::X2 => "X2",
        }
    }
}

/// Click kind of a mouse action
#[derive(Debug, Clone, Copy, PartialEq, Eq, Structural)]
pub enum MouseActionType {
    Click,
    DoubleClick,
}

impl MouseActionType {
    /// The name of the click kind.
    pub open spec fn spec_name(self) -> Seq<char> {
        match self {
            MouseActionType::Click => "Click"@,
            MouseActionType::DoubleClick => "DoubleClick"@,
        }
    }

    /// The name of the click kind.
    pub fn name(&self) -> (r: &'static str)
        ensures
            r@ == self.spec_name(),
    {
        match self {
            MouseActionType::Click => "Click",
            MouseActionType::DoubleClick => "DoubleClick",
        }
    }
}

/// Window command
#[derive(Debug, Clone, Copy, PartialEq, Eq, Structural)]
pub enum WindowCommand {
    Minimize,
    Maximize,
    Restore,
    Close,
    ShowDesktop,
}

impl WindowCommand {
    /// The command's variant name (its debug form).
    pub open spec fn spec_name(self) -> Seq<char> {
        match self {
            WindowCommand::Minimize => "Minimize"@,
            WindowCommand::Maximize => "Maximize"@,
            WindowCommand::Restore => "Restore"@,
            WindowCommand::Close => "Close"@,
            WindowCommand::ShowDesktop => "ShowDesktop"@,
        }
    }

    /// The command's variant name (its debug form).
    pub fn name(&self) -> (r: &'static str)
        ensures
            r@ == self.spec_name(),
    {
        match self {
            WindowCommand::Minimize => "Minimize",
            WindowCommand::Maximize => "Maximize",
            WindowCommand::Restore => "Restore",
            WindowCommand::Close => "Close",
            WindowCommand::ShowDesktop => "ShowDesktop",
        }
    }
}

/// Keyboard shortcut action
#[derive(Debug, Clone)]
pub struct KeyboardAction {
    pub keys: Vec<String>,  // Virtual key codes (e.g., "VK_CONTROL", "VK_C")
}

/// Mouse action
#[derive(Debug, Clone)]
pub struct MouseAction {
    pub button: MouseButton,
    pub action_type: MouseActionType,
}

/// Window command action
#[derive(Debug, Clone)]
pub struct WindowAction {
    pub command: WindowCommand,
}

/// Run program action
#[derive(Debug, Clone)]
pub struct RunAction {
    pub command: String,
    pub args: Option<String>,
}

/// Action types that can be executed
#[derive(Debug, Clone)]
pub enum Action {
    Keyboard(KeyboardAction),
    Mouse(MouseAction),
    Window(WindowAction),
    Run(RunAction),
}

/// Abstract value of an action.
pub enum ActionView {
    Keyboard(Seq<Seq<char>>),
    Mouse(MouseButton, MouseActionType),
    Window(WindowCommand),
    Run(Seq<char>, Option<Seq<char>>),
}

/// The view of an optional string.
pub open spec fn opt_view(o: Option<String>) -> Option<Seq<char>> {
    match o {
        Some(s) => Some(s@),
        None => None,
    }
}

impl View for Action {
    type V = ActionView;

    open spec fn view(&self) -> ActionView {
        match self {
            Action::Keyboard(kb) => ActionView::Keyboard(views(kb.keys@)),
            Action::Mouse(m) => ActionView::Mouse(m.button, m.action_type),
            Action::Window(w) => ActionView::Window(w.command),
            Action::Run(r) => ActionView::Run(r.command@, opt_view(r.args)),
        }
    }
}

/// A copy of a list of strings.
pub fn copy_strings(v: &Vec<String>) -> (r: Vec<String>)
    ensures
        views(r@) == views(v@),
{
    let mut r: Vec<String> = Vec::new();
    let mut i: usize = 0;
    while i < v.len()
        invariant
            i <= v@.len(),
            r@.len() == i,
            forall|j: int| 0 <= j < i ==> (#[trigger] r@[j])@ == v@[j]@,
        decreases v.len() - i,
    {
        r.push(v[i].clone());
        i = i + 1;
    }
    assert(views(r@) =~= views(v@));
    r
}

/// A copy of an optional string.
pub fn copy_opt_string(o: &Option<String>) -> (r: Option<String>)
    ensures
        opt_view(r) == opt_view(*o),
{
    match o {
        Some(s) => Some(s.clone()),
        None => None,
    }
}

impl ActionView {
    /// The text `display_info` gives for an action.
    pub open spec fn spec_display_info(self) -> Seq<char> {
        match self {
            ActionView::Keyboard(keys) => "Keyboard: "@ + join(keys, "+"@),
            ActionView::Mouse(b, t) => "Mouse: "@ + b.spec_as_str() + " "@ + t.spec_name(),
            ActionView::Window(c) => "Window: "@ + c.spec_name(),
            ActionView::Run(cmd, args) => "Run: "@ + cmd + " "@ + match args {
                Some(a) => a,
                None => ""@,
            },
        }
    }
}

impl Action {
    /// An exact copy of the action.
    pub fn duplicate(&self) -> (r: Self)
        ensures
            r@ == self@,
    {
        match self {
            Action::Keyboard(kb) => Action::Keyboard(KeyboardAction { keys: copy_strings(&kb.keys) }),
            Action::Mouse(m) => Action::Mouse(MouseAction { button: m.button, action_type: m.action_type }),
            Action::Window(w) => Action::Window(WindowAction { command: w.command }),
            Action::Run(r) => Action::Run(RunAction { command: r.command.clone(), args: copy_opt_string(&r.args) }),
        }
    }

    /// Get display info for this action (name and shortcut)
    pub fn display_info(&self) -> (r: String)
        ensures
            r@ == self@.spec_display_info(),
    {
        match self {
            Action::Keyboard(kb) => {
                let keys = join_strings(&kb.keys, "+");
                let mut r = String::from_str("Keyboard: ");
                r.append(keys.as_str());
                r
            },
            Action::Mouse(mouse) => {
                let mut r = String::from_str("Mouse: ");
                r.append(mouse.button.as_str());
                r.append(" ");
                r.append(mouse.action_type.name());
                r
            },
            Action::Window(win) => {
                let mut r = String::from_str("Window: ");
                r.append(win.command.name());
                r
            },
            Action::Run(run) => {
                let mut r = String::from_str("Run: ");
                r.append(run.command.as_str());
                r.append(" ");
                match &run.args {
                    Some(a) => r.append(a.as_str()),
                    None => r.append(""),
                }
                r
            },
        }
    }
}

/// Abstract value of a gesture entry.
pub struct GestureEntryView {
    pub name: Seq<char>,
    pub action: ActionView,
}

/// A gesture entry combining a user-friendly name with an action.
/// Stored as the value in gesture maps (the key is the direction sequence).
#[derive(Debug, Clone)]
pub struct GestureEntry {
    pub name: String,
    pub action: Action,
}

impl View for GestureEntry {
    type V = GestureEntryView;

    open spec fn view(&self) -> GestureEntryView {
        GestureEntryView { name: self.name@, action: self.action@ }
    }
}

impl GestureEntry {
    /// An exact copy of the entry.
    pub fn duplicate(&self) -> (r: Self)
        ensures
            r@ == self@,
    {
        GestureEntry { name: self.name.clone(), action: self.action.duplicate() }
    }
}

/// The views of the entries of a gesture map.
pub open spec fn entries_view(m: Map<Seq<char>, GestureEntry>) -> Map<Seq<char>, GestureEntryView> {
    m.map_values(|e: GestureEntry| e@)
}

/// The views of all per-application gesture maps.
pub open spec fn apps_view(m: Map<Seq<char>, StrMap<GestureEntry>>) -> Map<
    Seq<char>,
    Map<Seq<char>, GestureEntryView>,
> {
    m.map_values(|g: StrMap<GestureEntry>| entries_view(g.view()))
}

/// A copy of a gesture map.
pub fn copy_gesture_map(m: &StrMap<GestureEntry>) -> (r: StrMap<GestureEntry>)
    ensures
        entries_view(r.view()) == entries_view(m.view()),
        r.spec_keys() == m.spec_keys(),
{
    let mut r: StrMap<GestureEntry> = StrMap::new();
    let n = m.len();
    let mut i: usize = 0;
    let keys = m.keys();
    while i < n
        invariant
            n == m.spec_keys().len(),
            i <= n,
            m.spec_keys().no_duplicates(),
            m.view().dom() == m.spec_keys().to_set(),
            r.spec_keys() == m.spec_keys().take(i as int),
            r.view().dom() == m.spec_keys().take(i as int).to_set(),
            forall|k: Seq<char>| #[trigger]
                r.view().contains_key(k) ==> r.view()[k]@ == m.view()[k]@,
        decreases n - i,
    {
        let k = m.key_at(i);
        let v = m.value_at(i);
        let ghost kk = k@;
        proof {
            assert(!m.spec_keys().take(i as int).contains(kk)) by {
                if m.spec_keys().take(i as int).contains(kk) {
                    let j = choose|j: int| 0 <= j < i && m.spec_keys().take(i as int)[j] == kk;
                    assert(m.spec_keys()[j] == m.spec_keys()[i as int]);
                }
            }
        }
        r.insert(k.clone(), v.duplicate());
        i = i + 1;
        proof {
            assert(m.spec_keys().take(i as int) =~= m.spec_keys().take(i - 1).push(kk));
            lemma_push_to_set(m.spec_keys().take(i - 1), kk);
            assert(r.view().dom() =~= m.spec_keys().take(i as int).to_set());
        }
    }
    proof {
        assert(m.spec_keys().take(n as int) =~= m.spec_keys());
        assert(entries_view(r.view()) =~= entries_view(m.view()));
    }
    r
}

/// A copy of a map of per-application gesture maps.
pub fn copy_app_maps(m: &StrMap<StrMap<GestureEntry>>) -> (r: StrMap<StrMap<GestureEntry>>)
    ensures
        apps_view(r.view()) == apps_view(m.view()),
{
    let mut r: StrMap<StrMap<GestureEntry>> = StrMap::new();
    let n = m.len();
    let keys = m.keys();
    let mut i: usize = 0;
    while i < n
        invariant
            n == m.spec_keys().len(),
            i <= n,
            m.spec_keys().no_duplicates(),
            m.view().dom() == m.spec_keys().to_set(),
            r.view().dom() == m.spec_keys().take(i as int).to_set(),
            forall|k: Seq<char>| #[trigger]
                r.view().contains_key(k) ==> entries_view(r.view()[k].view()) == entries_view(
                    m.view()[k].view(),
                ),
        decreases n - i,
    {
        let k = m.key_at(i);
        let v = m.value_at(i);
        let ghost kk = k@;
        r.insert(k.clone(), copy_gesture_map(v));
        i = i + 1;
        proof {
            assert(m.spec_keys().take(i as int) =~= m.spec_keys().take(i - 1).push(kk));
            lemma_push_to_set(m.spec_keys().take(i - 1), kk);
            assert(r.view().dom() =~= m.spec_keys().take(i as int).to_set());
        }
    }
    proof {
        assert(m.spec_keys().take(n as int) =~= m.spec_keys());
        assert(apps_view(r.view()) =~= apps_view(m.view()));
    }
    r
}

/// Application settings
#[derive(Debug, Clone)]
pub struct Settings {
    /// Minimum distance in pixels before gesture starts
    pub min_distance: u32,
    /// Minimum distance in pixels for a gesture direction
    pub effective_move: u32,
    /// Timeout in milliseconds before gesture is cancelled
    pub stay_timeout: u32,
    /// Enable 8-direction gestures (only first stroke)
    pub enable_8_direction: bool,
    /// Disable gestures in fullscreen applications
    pub disable_in_fullscreen: bool,
    /// Show gesture trail overlay
    pub show_trail: bool,
    /// Show gesture name tooltip after recognition
    pub show_gesture_name: bool,
    /// Trail line width in pixels
    pub trail_width: u32,
    /// Trail color for right-button gesture (hex, e.g. "#0096FF")
    pub trail_color_right: String,
    /// Trail color for middle-button gesture (hex, e.g. "#00CC66")
    pub trail_color_middle: String,
    /// Trail color for X-button gesture (hex, e.g. "#FF8800")
    pub trail_color_x: String,
    /// Trail color for unrecognized gesture (hex, e.g. "#6633CC")
    pub trail_color_unknown: String,
}

impl Settings {
    /// The values of the default settings.
    pub open spec fn is_default(self) -> bool {
        &&& self.min_distance == 5
        &&& self.effective_move == 20
        &&& self.stay_timeout == 500
        &&& !self.enable_8_direction
        &&& self.disable_in_fullscreen
        &&& self.show_trail
        &&& self.show_gesture_name
        &&& self.trail_width == 3
        &&& self.trail_color_right@ == "#0096FF"@
        &&& self.trail_color_middle@ == "#00CC66"@
        &&& self.trail_color_x@ == "#FF8800"@
        &&& self.trail_color_unknown@ == "#6633CC"@
    }

    /// An exact copy of the settings.
    pub fn duplicate(&self) -> (r: Self)
        ensures
            r == *self,
    {
        Settings {
            min_distance: self.min_distance,
            effective_move: self.effective_move,
            stay_timeout: self.stay_timeout,
            enable_8_direction: self.enable_8_direction,
            disable_in_fullscreen: self.disable_in_fullscreen,
            show_trail: self.show_trail,
            show_gesture_name: self.show_gesture_name,
            trail_width: self.trail_width,
            trail_color_right: self.trail_color_right.clone(),
            trail_color_middle: self.trail_color_middle.clone(),
            trail_color_x: self.trail_color_x.clone(),
            trail_color_unknown: self.trail_color_unknown.clone(),
        }
    }
}

impl Default for Settings {
    fn default() -> (s: Self)
        ensures
            s.is_default(),
    {
        Settings {
            min_distance: 5,
            effective_move: 20,
            stay_timeout: 500,
            enable_8_direction: false,
            disable_in_fullscreen: true,
            show_trail: true,
            show_gesture_name: true,
            trail_width: 3,
            trail_color_right: String::from_str("#0096FF"),
            trail_color_middle: String::from_str("#00CC66"),
            trail_color_x: String::from_str("#FF8800"),
            trail_color_unknown: String::from_str("#6633CC"),
        }
    }
}

/// Main configuration structure
pub struct GestureConfig {
    /// Configuration version
    pub version: u32,
    /// Global gesture mappings
    pub global_gestures: StrMap<GestureEntry>,
    /// Application-specific gesture mappings
    pub app_gestures: StrMap<StrMap<GestureEntry>>,
    /// Applications where gestures are disabled
    pub disabled_apps: StrSet,
    /// Application settings
    pub settings: Settings,
}

/// The entries of the default configuration's global gesture map (middle button):
/// Right → Ctrl+L, Down → minimize, Up → maximize, Right then Down → lock (Win+L).
pub open spec fn default_global_gestures() -> Map<Seq<char>, GestureEntryView> {
    map![
        "M_Right"@ => GestureEntryView {
            name: "Ctrl+L"@,
            action: ActionView::Keyboard(seq!["VK_CONTROL"@, "VK_L"@]),
        },
        "M_Down"@ => GestureEntryView {
            name: "最小化"@,
            action: ActionView::Window(WindowCommand::Minimize),
        },
        "M_Up"@ => GestureEntryView {
            name: "最大化"@,
            action: ActionView::Window(WindowCommand::Maximize),
        },
        "M_Right → Down"@ => GestureEntryView {
            name: "锁屏"@,
            action: ActionView::Keyboard(seq!["VK_LWIN"@, "L"@]),
        },
    ]
}

impl GestureConfig {
    /// An exact copy of the configuration.
    pub fn duplicate(&self) -> (r: Self)
        ensures
            r.version == self.version,
            entries_view(r.global_gestures.view()) == entries_view(self.global_gestures.view()),
            apps_view(r.app_gestures.view()) == apps_view(self.app_gestures.view()),
            r.disabled_apps.view() == self.disabled_apps.view(),
            r.settings == self.settings,
    {
        let global_gestures = copy_gesture_map(&self.global_gestures);
        let app_gestures = copy_app_maps(&self.app_gestures);
        let mut disabled_apps = StrSet::new();
        let members = self.disabled_apps.members();
        let mut j: usize = 0;
        while j < members.len()
            invariant
                j <= members@.len(),
                members@.map_values(|s: String| s@).to_set() == self.disabled_apps.view(),
                disabled_apps.view() == members@.map_values(|s: String| s@).take(j as int).to_set(),
            decreases members.len() - j,
        {
            disabled_apps.insert(members[j].clone());
            j = j + 1;
            proof {
                assert(members@.map_values(|s: String| s@).take(j as int) =~= members@.map_values(
                    |s: String| s@,
                ).take(j - 1).push(members@[j - 1]@));
                lemma_push_to_set(members@.map_values(|s: String| s@).take(j - 1), members@[j - 1]@);
                assert(disabled_apps.view() =~= members@.map_values(|s: String| s@).take(
                    j as int,
                ).to_set());
            }
        }
        proof {
            assert(members@.map_values(|s: String| s@).take(members@.len() as int) =~= members@.map_values(
                |s: String| s@,
            ));
        }
        GestureConfig {
            version: self.version,
            global_gestures,
            app_gestures,
            disabled_apps,
            settings: self.settings.duplicate(),
        }
    }
}

impl Default for GestureConfig {
    fn default() -> (c: Self)
        ensures
            c.version == 1,
            entries_view(c.global_gestures.view()) == default_global_gestures(),
            c.app_gestures.view() == Map::<Seq<char>, StrMap<GestureEntry>>::empty(),
            c.disabled_apps.view() == Set::<Seq<char>>::empty(),
            c.settings.is_default(),
    {
        let mut global_gestures: StrMap<GestureEntry> = StrMap::new();
        // Default gestures use button prefix: M_ = Middle, R_ = Right, X1_ = X1, X2_ = X2
        let mut keys: Vec<String> = Vec::new();
        keys.push(String::from_str("VK_CONTROL"));
        keys.push(String::from_str("VK_L"));
        let ghost key_views = views(keys@);
        global_gestures.insert(
            String::from_str("M_Right"),
            GestureEntry {
                name: String::from_str("Ctrl+L"),
                action: Action::Keyboard(KeyboardAction { keys }),
            },
        );
        global_gestures.insert(
            String::from_str("M_Down"),
            GestureEntry {
                name: String::from_str("最小化"),
                action: Action::Window(WindowAction { command: WindowCommand::Minimize }),
            },
        );
        global_gestures.insert(
            String::from_str("M_Up"),
            GestureEntry {
                name: String::from_str("最大化"),
                action: Action::Window(WindowAction { command: WindowCommand::Maximize }),
            },
        );
        // Lock the workstation (Win+L)
        let mut lock_keys: Vec<String> = Vec::new();
        lock_keys.push(String::from_str("VK_LWIN"));
        lock_keys.push(String::from_str("L"));
        let ghost lock_views = views(lock_keys@);
        global_gestures.insert(
            String::from_str("M_Right → Down"),
            GestureEntry {
                name: String::from_str("锁屏"),
                action: Action::Keyboard(KeyboardAction { keys: lock_keys }),
            },
        );
        let c = GestureConfig {
            version: 1,
            global_gestures,
            app_gestures: StrMap::new(),
            disabled_apps: StrSet::new(),
            settings: Settings::default(),
        };
        proof {
            reveal_strlit("M_Right");
            reveal_strlit("M_Down");
            reveal_strlit("M_Up");
            reveal_strlit("M_Right → Down");
            assert(key_views =~= seq!["VK_CONTROL"@, "VK_L"@]);
            assert(lock_views =~= seq!["VK_LWIN"@, "L"@]);
            assert(entries_view(c.global_gestures.view()) =~= default_global_gestures());
        }
        c
    }
}

} // verus!
