//! State of the settings dialog: the configuration being edited, the selected
//! application and the gesture being edited, with the edits the dialog makes.
use vstd::prelude::*;
use vstd::string::*;
use crate::capture::CaptureResult;
use crate::config::{
    apps_view, entries_view, copy_gesture_map, Action, ActionView, GestureConfig, GestureEntry,
    GestureEntryView, KeyboardAction, MouseAction, MouseActionType, MouseButton, RunAction,
    WindowAction, WindowCommand,
};
use crate::dialog::{
    trimmed_nonempty,
    action_detail, action_to_detail, action_to_type_index, button_index, button_of_index,
    command_index, command_of_index, format_keys_display, gesture_name_to_mnemonic,
    index_to_trigger_button, index_to_window_command, keys_display, mnemonic, parse_gesture_key,
    parsed_key, trigger_button_to_index, type_index, window_command_to_index,
    action_type_display, action_params_display, params_display, type_index_display,
};
use crate::gesture::{GestureDir, GestureTriggerButton, GestureView, separator, GESTURE_DIR_SEPARATOR};
use crate::intent::{lookup, spec_gesture_key};
use crate::strmap::{StrMap, keys_of};
use crate::text::{
    views, join, split, trim, trim_start, trim_end, is_ws, has_prefix, avoids, lemma_split_join,
    decimal, strictly_sorted, sorted_of, sort_strings, str_eq, split_str, trim_str, join_strings,
    decimal_string,
};

verus! {

/// The name under which the dialog lists the global gestures.
pub open spec fn global_name() -> Seq<char> {
    "global"@
}

/// The application list the dialog shows for the sorted application names `sorted`:
/// "global" first, then the names (a name "global" that sorts first is not repeated).
pub open spec fn app_listing(sorted: Seq<Seq<char>>) -> Seq<Seq<char>> {
    if sorted.len() > 0 && sorted[0] == global_name() {
        sorted
    } else {
        seq![global_name()] + sorted
    }
}

/// The pieces of `s` between `sep`s, each trimmed (empty pieces stay).
pub open spec fn trimmed_pieces(s: Seq<char>, sep: Seq<char>) -> Seq<Seq<char>> {
    split(s, sep).map_values(|p: Seq<char>| trim(p))
}

/// The pieces of `s` between `sep`s, each trimmed.
fn split_trimmed(s: &str, sep: &str) -> (r: Vec<String>)
    requires
        sep@.len() > 0,
    ensures
        views(r@) == trimmed_pieces(s@, sep@),
{
    let parts = split_str(s, sep);
    let mut r: Vec<String> = Vec::new();
    let mut i: usize = 0;
    while i < parts.len()
        invariant
            i <= parts@.len(),
            views(parts@) == split(s@, sep@),
            views(r@) == trimmed_pieces(s@, sep@).take(i as int),
        decreases parts.len() - i,
    {
        let t = String::from_str(trim_str(parts[i].as_str()));
        let ghost before = views(r@);
        r.push(t);
        proof {
            assert(views(parts@)[i as int] == parts@[i as int]@);
            assert(views(r@) =~= before.push(t@));
            assert(trimmed_pieces(s@, sep@).take(i + 1) =~= trimmed_pieces(s@, sep@).take(
                i as int,
            ).push(t@));
        }
        i = i + 1;
    }
    proof {
        assert(trimmed_pieces(s@, sep@).take(parts@.len() as int) =~= trimmed_pieces(s@, sep@));
    }
    r
}

/// The name the dialog gives an application added at `secs` seconds since the epoch.
pub open spec fn app_name_at(secs: nat) -> Seq<char> {
    "app_"@ + decimal(secs)
}

/// The name of an application added at `secs` seconds since the epoch: "app_<secs>".
pub fn new_app_name(secs: u64) -> (r: String)
    ensures
        r@ == app_name_at(secs as nat),
{
    let mut r = String::from_str("app_");
    let d = decimal_string(secs);
    r.append(d.as_str());
    proof {
        reveal_strlit("app_");
    }
    r
}

/// The configuration key of a gesture of `button` with direction names `dirs`:
/// the button's prefix, then the names joined by the separator ("M_Right → Down").
pub open spec fn edit_key(button: GestureTriggerButton, dirs: Seq<Seq<char>>) -> Seq<char> {
    button.spec_key_prefix() + join(dirs, separator())
}

/// The action an action-type change makes from the old action's detail text
/// (keyboard 0, mouse 1, window 2, run 3; none for another index).
pub open spec fn typed_action(t: i32, detail: Seq<char>) -> Option<ActionView> {
    if t == 0 {
        Some(ActionView::Keyboard(seq![detail]))
    } else if t == 1 {
        Some(ActionView::Mouse(MouseButton::Left, MouseActionType::Click))
    } else if t == 2 {
        Some(ActionView::Window(WindowCommand::Minimize))
    } else if t == 3 {
        Some(ActionView::Run(detail, None))
    } else {
        None
    }
}

/// The action a detail edit makes for an action of type index `t`: the keys of a
/// keyboard action are the "+"-separated pieces, trimmed.
pub open spec fn detail_action(t: i32, detail: Seq<char>) -> Option<ActionView> {
    if t == 0 {
        Some(ActionView::Keyboard(trimmed_pieces(detail, "+"@)))
    } else if t == 1 {
        Some(ActionView::Mouse(MouseButton::Left, MouseActionType::Click))
    } else if t == 2 {
        Some(ActionView::Window(WindowCommand::Minimize))
    } else if t == 3 {
        Some(ActionView::Run(detail, None))
    } else {
        None
    }
}

/// The action the edit dialog confirms: a window command for type 2, otherwise the
/// keyboard keys (a placeholder key when empty), a left click, or a program (Notepad
/// when empty); none for another type index.
pub open spec fn confirmed_action(t: i32, detail: Seq<char>, command_idx: i32) -> Option<ActionView> {
    if t == 2 {
        Some(ActionView::Window(command_of_index(command_idx)))
    } else if t == 0 {
        Some(
            ActionView::Keyboard(
                if detail.len() == 0 {
                    seq!["VK_UNKNOWN"@]
                } else {
                    trimmed_pieces(detail, "+"@)
                },
            ),
        )
    } else if t == 1 {
        Some(ActionView::Mouse(MouseButton::Left, MouseActionType::Click))
    } else if t == 3 {
        Some(
            ActionView::Run(
                if detail.len() == 0 {
                    "notepad.exe"@
                } else {
                    detail
                },
                None,
            ),
        )
    } else {
        None
    }
}

/// The values the edit dialog shows for a gesture being edited.
pub struct EditForm {
    pub entry_name: String,
    pub direction_display: String,
    pub action_type_index: i32,
    pub action_detail: String,
    pub window_command_index: i32,
    pub trigger_button_index: i32,
    pub shortcut_display: String,
}

/// The view of an optional string.
pub open spec fn opt_str(o: Option<String>) -> Option<Seq<char>> {
    match o {
        Some(s) => Some(s@),
        None => None,
    }
}

/// The name shown for application `app` whose path has the file name `file_name`.
pub open spec fn display_name(app: Seq<char>, file_name: Option<Seq<char>>) -> Seq<char> {
    if app == global_name() {
        "全局"@
    } else {
        match file_name {
            Some(f) => f,
            None => app,
        }
    }
}

/// The name shown for application `app_name`, given the file name of its path.
pub fn display_name_from(app_name: &str, file_name: Option<String>) -> (r: String)
    ensures
        r@ == display_name(app_name@, opt_str(file_name)),
{
    proof {
        reveal_strlit("global");
        reveal_strlit("全局");
    }
    if str_eq(app_name, "global") {
        String::from_str("全局")
    } else {
        match file_name {
            Some(f) => f,
            None => String::from_str(app_name),
        }
    }
}

/// The part of `s` after its last '/' (all of `s` when it has none).
pub open spec fn after_last_slash(s: Seq<char>) -> Seq<char>
    decreases s.len(),
{
    if s.len() == 0 {
        s
    } else if s.last() == '/' {
        Seq::empty()
    } else {
        after_last_slash(s.drop_last()).push(s.last())
    }
}

/// `t` occurs in `s` as a contiguous run of characters.
pub open spec fn occurs_in(t: Seq<char>, s: Seq<char>) -> bool {
    exists|i: int| 0 <= i && i + t.len() <= s.len() && #[trigger] s.subrange(i, i + t.len()) == t
}

/// `s` is "." or "..".
pub open spec fn is_dot_name(s: Seq<char>) -> bool {
    s == seq!['.'] || s == seq!['.', '.']
}

/// `s` is a bare file name on every platform: not empty, not "." or "..", and with
/// no separator ('/' or '\\') and no ':' (which could start a drive prefix).
pub open spec fn is_bare_name(s: Seq<char>) -> bool {
    &&& s.len() > 0
    &&& !s.contains('/')
    &&& !s.contains('\\')
    &&& !s.contains(':')
    &&& !is_dot_name(s)
}

/// `s` is a path whose last component is the same on every platform: it has a '/', no
/// '\\', does not start with "//", and the part after its last '/' is a name other
/// than "." or "..".
pub open spec fn is_slash_path(s: Seq<char>) -> bool {
    &&& s.contains('/')
    &&& !s.contains('\\')
    &&& !(s.len() >= 2 && s[0] == '/' && s[1] == '/')
    &&& after_last_slash(s).len() > 0
    &&& !is_dot_name(after_last_slash(s))
}

/// What holds on every platform of the name `shown` for application `app`: "全局" for
/// the global gestures; a bare name shows as itself; a path with '/' (and the other
/// conditions of `is_slash_path`) shows as the part after its last '/'; any other name
/// shows as itself or as a non-empty run of its characters, with no '/' when the name
/// has no '\\'.
pub open spec fn shown_name_fits(app: Seq<char>, shown: Seq<char>) -> bool {
    if app == global_name() {
        shown == "全局"@
    } else if is_bare_name(app) {
        shown == app
    } else if is_slash_path(app) {
        shown == after_last_slash(app)
    } else if app.len() == 0 {
        shown == app
    } else {
        ||| shown == app
        ||| {
            &&& shown.len() > 0
            &&& occurs_in(shown, app)
            &&& !app.contains('\\') ==> !shown.contains('/')
        }
    }
}

/// The last component of `path` (`std::path::Path::new(path).file_name()`), converted
/// to text (`OsStr::to_string_lossy`, which keeps text that came from a `&str` as it
/// is). Which characters separate components depends on the platform ('/' everywhere,
/// '\\' and a leading drive or UNC prefix on Windows); what is stated here holds on
/// every platform:
/// - a bare name (no '/', '\\' or ':', not "." or "..") is its own file name;
/// - a path with '/' and no '\\' that does not start with "//" has the part after its
///   last '/' as file name, when that part is a name other than "." or "..";
/// - the empty path has no file name;
/// - a file name is a non-empty run of characters of the path, with no '/' when the
///   path has no '\\' ('/' separates components on every platform; only a Windows
///   verbatim prefix, which starts with '\\', turns that off).
/// Which component comes out for other paths is left unsaid.
#[verifier::external_body]
fn path_file_name(path: &str) -> (r: Option<String>)
    ensures
        is_bare_name(path@) ==> opt_str(r) == Some(path@),
        is_slash_path(path@) ==> opt_str(r) == Some(after_last_slash(path@)),
        path@.len() == 0 ==> r is None,
        r matches Some(f) ==> {
            &&& f@.len() > 0
            &&& occurs_in(f@, path@)
            &&& !path@.contains('\\') ==> !f@.contains('/')
        },
{
    match std::path::Path::new(path).file_name() {
        Some(f) => Some(f.to_string_lossy().to_string()),
        None => None,
    }
}

/// One row of the gesture list: the entry's name (the key when the name is empty),
/// the key's mnemonic, the action type and the action's parameters.
pub struct GestureRow {
    pub name: String,
    pub mnemonic: String,
    pub action_type: String,
    pub action_params: String,
}

/// One row of the application list.
pub struct AppRow {
    pub name: String,
    pub display_name: String,
    pub selected: bool,
}

/// Everything the settings dialog keeps between two user actions.
pub struct DialogState {
    pub config_path: String,
    pub config: GestureConfig,
    pub current_app: String,
    pub app_names: Vec<String>,
    pub edit_directions: Vec<String>,
    pub edit_trigger_button: GestureTriggerButton,
    pub edit_original_name: Option<String>,
}

impl DialogState {
    /// The gestures the dialog shows for `app`: the global ones for "global", those of
    /// the application otherwise (none when it has no entry).
    pub open spec fn spec_gesture_map(self, app: Seq<char>) -> Map<Seq<char>, GestureEntryView> {
        if app == global_name() {
            entries_view(self.config.global_gestures.view())
        } else if self.config.app_gestures.view().contains_key(app) {
            entries_view(self.config.app_gestures.view()[app].view())
        } else {
            Map::empty()
        }
    }

    /// The dialog's application list for this configuration.
    pub open spec fn spec_app_names(self) -> Seq<Seq<char>> {
        app_listing(sorted_of(self.config.app_gestures.view().dom()))
    }

    /// The application names of the configuration: "global" first, then the
    /// per-application names in ascending order.
    pub fn build_app_names(&self) -> (r: Vec<String>)
        ensures
            views(r@) == self.spec_app_names(),
    {
        let keys = self.config.app_gestures.keys();
        proof {
            assert(views(keys@) == keys@.map_values(|s: String| s@));
        }
        let sorted = sort_strings(&keys);
        let ghost s = views(sorted@);
        let global = String::from_str("global");
        proof {
            reveal_strlit("global");
        }
        if sorted.len() > 0 && str_eq(sorted[0].as_str(), "global") {
            proof {
                assert(s[0] == sorted@[0]@);
                assert(s == app_listing(s));
            }
            sorted
        } else {
            let mut r: Vec<String> = Vec::new();
            r.push(global);
            let mut i: usize = 0;
            while i < sorted.len()
                invariant
                    i <= sorted@.len(),
                    s == views(sorted@),
                    views(r@) == seq![global_name()] + s.take(i as int),
                decreases sorted.len() - i,
            {
                let ghost old_r = views(r@);
                let item = sorted[i].clone();
                r.push(item);
                proof {
                    assert(views(r@) =~= old_r.push(item@));
                }
                i = i + 1;
                proof {
                    assert(s.take(i as int) =~= s.take(i - 1).push(sorted@[i - 1]@));
                    assert(views(r@) =~= seq![global_name()] + s.take(i as int));
                }
            }
            proof {
                assert(s.take(s.len() as int) =~= s);
                if s.len() > 0 {
                    assert(s[0] == sorted@[0]@);
                }
                assert(views(r@) == app_listing(s));
            }
            r
        }
    }

    /// A copy of the gestures the dialog shows for `app_name`.
    pub fn gesture_map_for_app(&self, app_name: &str) -> (r: StrMap<GestureEntry>)
        ensures
            entries_view(r.view()) == self.spec_gesture_map(app_name@),
    {
        proof {
            reveal_strlit("global");
        }
        if str_eq(app_name, "global") {
            copy_gesture_map(&self.config.global_gestures)
        } else {
            match self.config.app_gestures.get(app_name) {
                Some(m) => copy_gesture_map(m),
                None => {
                    let r = StrMap::new();
                    proof {
                        assert(entries_view(r.view()) =~= Map::empty());
                    }
                    r
                },
            }
        }
    }

    /// The parts of the state other than the gesture maps are those of `other`.
    pub open spec fn same_apart_from_gestures(self, other: Self) -> bool {
        &&& self.config_path == other.config_path
        &&& self.current_app == other.current_app
        &&& self.app_names == other.app_names
        &&& self.edit_directions == other.edit_directions
        &&& self.edit_trigger_button == other.edit_trigger_button
        &&& self.edit_original_name == other.edit_original_name
        &&& self.config.version == other.config.version
        &&& self.config.disabled_apps == other.config.disabled_apps
        &&& self.config.settings == other.config.settings
    }

    /// Stores `entry` under `gesture_name` in the gestures of the current application
    /// (creating the application's map when it has none).
    pub fn set_gesture(&mut self, gesture_name: String, entry: GestureEntry)
        ensures
            final(self).same_apart_from_gestures(*old(self)),
            forall|a: Seq<char>| #[trigger]
                final(self).spec_gesture_map(a) == if a == old(self).current_app@ {
                    old(self).spec_gesture_map(a).insert(gesture_name@, entry@)
                } else {
                    old(self).spec_gesture_map(a)
                },
            old(self).current_app@ == global_name() ==> final(self).config.app_gestures.view()
                == old(self).config.app_gestures.view(),
            old(self).current_app@ != global_name() ==> final(self).config.app_gestures.view().dom() == old(self).config.app_gestures.view().dom().insert(old(self).current_app@),
    {
        let ghost name = gesture_name@;
        let ghost ev = entry@;
        proof {
            reveal_strlit("global");
        }
        if str_eq(self.current_app.as_str(), "global") {
            let ghost before = self.config.global_gestures.view();
            self.config.global_gestures.insert(gesture_name, entry);
            proof {
                assert(entries_view(self.config.global_gestures.view()) =~= entries_view(
                    before,
                ).insert(name, ev));
            }
        } else {
            let app = self.current_app.clone();
            let ghost before = self.config.app_gestures.view();
            let mut inner = match self.config.app_gestures.remove(app.as_str()) {
                Some(m) => m,
                None => StrMap::new(),
            };
            let ghost inner_before = inner.view();
            proof {
                if before.contains_key(app@) {
                    assert(inner_before == before[app@].view());
                } else {
                    assert(entries_view(inner_before) =~= Map::empty());
                }
            }
            inner.insert(gesture_name, entry);
            proof {
                assert(entries_view(inner.view()) =~= entries_view(inner_before).insert(name, ev));
            }
            self.config.app_gestures.insert(app, inner);
            proof {
                assert(self.config.app_gestures.view().dom() =~= before.dom().insert(app@));
            }
        }
    }

    /// Removes `gesture_name` from the gestures of the current application.
    pub fn remove_gesture(&mut self, gesture_name: &str)
        ensures
            final(self).same_apart_from_gestures(*old(self)),
            forall|a: Seq<char>| #[trigger]
                final(self).spec_gesture_map(a) == if a == old(self).current_app@ {
                    old(self).spec_gesture_map(a).remove(gesture_name@)
                } else {
                    old(self).spec_gesture_map(a)
                },
            final(self).config.app_gestures.view().dom() == old(self).config.app_gestures.view().dom(),
    {
        proof {
            reveal_strlit("global");
        }
        if str_eq(self.current_app.as_str(), "global") {
            let ghost before = self.config.global_gestures.view();
            self.config.global_gestures.remove(gesture_name);
            proof {
                assert(entries_view(self.config.global_gestures.view()) =~= entries_view(
                    before,
                ).remove(gesture_name@));
            }
        } else {
            let app = self.current_app.clone();
            let ghost before = self.config.app_gestures.view();
            match self.config.app_gestures.remove(app.as_str()) {
                Some(mut inner) => {
                    let ghost inner_before = inner.view();
                    inner.remove(gesture_name);
                    proof {
                        assert(entries_view(inner.view()) =~= entries_view(inner_before).remove(
                            gesture_name@,
                        ));
                    }
                    self.config.app_gestures.insert(app, inner);
                    proof {
                        assert(self.config.app_gestures.view().dom() =~= before.dom());
                    }
                },
                None => {
                    proof {
                        assert(self.config.app_gestures.view() =~= before);
                        assert(Map::<Seq<char>, GestureEntryView>::empty().remove(gesture_name@)
                            =~= Map::empty());
                    }
                },
            }
        }
    }

    /// The keys of the current application's gestures in ascending order.
    pub open spec fn spec_pair_keys(self) -> Seq<Seq<char>> {
        sorted_of(self.spec_gesture_map(self.current_app@).dom())
    }

    /// The gestures of the current application as (key, entry) pairs, ordered by key.
    pub fn gesture_pairs(&self) -> (r: Vec<(String, GestureEntry)>)
        ensures
            keys_of(r@) == self.spec_pair_keys(),
            strictly_sorted(keys_of(r@)),
            keys_of(r@).to_set() == self.spec_gesture_map(self.current_app@).dom(),
            forall|i: int|
                0 <= i < r@.len() ==> (#[trigger] r@[i]).1@ == self.spec_gesture_map(
                    self.current_app@,
                )[r@[i].0@],
    {
        let map = self.gesture_map_for_app(self.current_app.as_str());
        let ghost m = self.spec_gesture_map(self.current_app@);
        let keys = map.keys();
        proof {
            assert(views(keys@) == keys@.map_values(|s: String| s@));
            assert(m.dom() =~= map.view().dom());
        }
        let sorted = sort_strings(&keys);
        let mut r: Vec<(String, GestureEntry)> = Vec::new();
        let mut i: usize = 0;
        while i < sorted.len()
            invariant
                i <= sorted@.len(),
                entries_view(map.view()) == m,
                views(sorted@).to_set() == map.view().dom(),
                keys_of(r@) == views(sorted@).take(i as int),
                forall|j: int| 0 <= j < r@.len() ==> (#[trigger] r@[j]).1@ == m[r@[j].0@],
            decreases sorted.len() - i,
        {
            let k = &sorted[i];
            proof {
                assert(views(sorted@)[i as int] == k@);
                assert(views(sorted@).to_set().contains(k@));
            }
            match map.get(k.as_str()) {
                Some(v) => {
                    let ghost before = r@;
                    r.push((k.clone(), v.duplicate()));
                    proof {
                        assert(keys_of(r@) =~= keys_of(before).push(k@));
                        assert(views(sorted@).take(i + 1) =~= views(sorted@).take(i as int).push(
                            k@,
                        ));
                        assert(r@[i as int].1@ == m[k@]);
                    }
                },
                None => {},
            }
            i = i + 1;
        }
        proof {
            assert(views(sorted@).take(sorted@.len() as int) =~= views(sorted@));
        }
        r
    }

    /// The entry of the gesture at position `idx` of the current application's list.
    pub open spec fn spec_entry_at(self, idx: int) -> GestureEntryView {
        self.spec_gesture_map(self.current_app@)[self.spec_pair_keys()[idx]]
    }

    /// `idx` is a position in the current application's gesture list.
    pub open spec fn in_list(self, idx: i32) -> bool {
        0 <= idx < self.spec_pair_keys().len()
    }

    /// Only the gesture maps of the current application changed, from `m` to `m2`.
    pub open spec fn current_map_became(
        self,
        old_state: Self,
        m2: Map<Seq<char>, GestureEntryView>,
    ) -> bool {
        forall|a: Seq<char>| #[trigger]
            self.spec_gesture_map(a) == if a == old_state.current_app@ {
                m2
            } else {
                old_state.spec_gesture_map(a)
            }
    }

    /// Dialog state for the configuration `config`, read from `config_path`: the global
    /// gestures selected, no gesture being edited.
    pub fn new(config_path: String, config: GestureConfig) -> (s: Self)
        ensures
            s.config_path == config_path,
            s.config == config,
            s.current_app@ == global_name(),
            views(s.app_names@) == s.spec_app_names(),
            s.edit_directions@.len() == 0,
            s.edit_trigger_button == GestureTriggerButton::Middle,
            s.edit_original_name is None,
    {
        let mut s = DialogState {
            config_path,
            config,
            current_app: String::from_str("global"),
            app_names: Vec::new(),
            edit_directions: Vec::new(),
            edit_trigger_button: GestureTriggerButton::Middle,
            edit_original_name: None,
        };
        proof {
            reveal_strlit("global");
        }
        s.app_names = s.build_app_names();
        s
    }

    /// The name shown for an application: "全局" for the global gestures, otherwise the
    /// file name of the application's path (the whole name when it has none); so
    /// "C:/dir/app.exe" shows as "app.exe" and "chrome.exe" as itself.
    pub fn display_name_for_app(app_name: &str) -> (r: String)
        ensures
            shown_name_fits(app_name@, r@),
    {
        proof {
            reveal_strlit("global");
        }
        if str_eq(app_name, "global") {
            let r = display_name_from(app_name, None);
            r
        } else {
            let f = path_file_name(app_name);
            let r = display_name_from(app_name, f);
            r
        }
    }

    /// Selects the application at position `idx` of the list; nothing changes for a
    /// position out of range.
    pub fn select_app(&mut self, idx: i32) -> (r: bool)
        ensures
            r == (0 <= idx < old(self).app_names@.len()),
            r ==> final(self).current_app@ == old(self).app_names@[idx as int]@,
            !r ==> final(self).current_app == old(self).current_app,
            final(self).config == old(self).config,
            final(self).app_names == old(self).app_names,
            final(self).edit_directions == old(self).edit_directions,
            final(self).edit_trigger_button == old(self).edit_trigger_button,
            final(self).edit_original_name == old(self).edit_original_name,
            final(self).config_path == old(self).config_path,
    {
        if idx < 0 || idx as usize >= self.app_names.len() {
            return false;
        }
        self.current_app = self.app_names[idx as usize].clone();
        true
    }

    /// Adds an application with no gestures (an existing one keeps its gestures),
    /// lists it and selects it.
    pub fn add_app(&mut self, new_app: String)
        ensures
            final(self).config.app_gestures.view().dom() == old(
                self,
            ).config.app_gestures.view().dom().insert(new_app@),
            forall|a: Seq<char>| #[trigger]
                final(self).spec_gesture_map(a) == old(self).spec_gesture_map(a),
            views(final(self).app_names@) == final(self).spec_app_names(),
            final(self).current_app@ == new_app@,
            final(self).edit_directions == old(self).edit_directions,
            final(self).edit_trigger_button == old(self).edit_trigger_button,
            final(self).edit_original_name == old(self).edit_original_name,
            final(self).config_path == old(self).config_path,
            final(self).config.version == old(self).config.version,
            final(self).config.disabled_apps == old(self).config.disabled_apps,
            final(self).config.settings == old(self).config.settings,
    {
        let ghost before = self.config.app_gestures.view();
        if !self.config.app_gestures.contains_key(new_app.as_str()) {
            let empty: StrMap<GestureEntry> = StrMap::new();
            proof {
                assert(entries_view(empty.view()) =~= Map::empty());
            }
            self.config.app_gestures.insert(new_app.clone(), empty);
        }
        proof {
            assert(self.config.app_gestures.view().dom() =~= before.dom().insert(new_app@));
        }
        self.app_names = self.build_app_names();
        self.current_app = new_app;
    }

    /// Starts adding a gesture: no directions and no original name.
    pub fn begin_add_gesture(&mut self)
        ensures
            final(self).edit_directions@.len() == 0,
            final(self).edit_original_name is None,
            final(self).config == old(self).config,
            final(self).current_app == old(self).current_app,
            final(self).app_names == old(self).app_names,
            final(self).edit_trigger_button == old(self).edit_trigger_button,
            final(self).config_path == old(self).config_path,
    {
        self.edit_directions.clear();
        self.edit_original_name = None;
    }

    /// Removes the gesture at position `idx` of the current application's list; nothing
    /// changes for a position out of range.
    pub fn remove_gesture_at(&mut self, idx: i32) -> (r: bool)
        ensures
            r == old(self).in_list(idx),
            r ==> final(self).same_apart_from_gestures(*old(self)),
            r ==> final(self).current_map_became(
                *old(self),
                old(self).spec_gesture_map(old(self).current_app@).remove(
                    old(self).spec_pair_keys()[idx as int],
                ),
            ),
            r ==> final(self).config.app_gestures.view().dom() == old(
                self,
            ).config.app_gestures.view().dom(),
            !r ==> *final(self) == *old(self),
    {
        let pairs = self.gesture_pairs();
        if idx < 0 || idx as usize >= pairs.len() {
            proof {
                assert(keys_of(pairs@).len() == pairs@.len());
            }
            return false;
        }
        let name = pairs[idx as usize].0.clone();
        proof {
            assert(keys_of(pairs@)[idx as int] == name@);
        }
        self.remove_gesture(name.as_str());
        true
    }

    /// The action type index and detail text shown when the gesture at position `idx`
    /// of the current application's list is selected; nothing for a position out of
    /// range.
    pub fn gesture_selection(&self, idx: i32) -> (r: Option<(i32, String)>)
        ensures
            r is Some == self.in_list(idx),
            r matches Some((t, d)) ==> t == type_index(self.spec_entry_at(idx as int).action)
                && d@ == action_detail(self.spec_entry_at(idx as int).action),
    {
        let pairs = self.gesture_pairs();
        if idx < 0 || idx as usize >= pairs.len() {
            proof {
                assert(keys_of(pairs@).len() == pairs@.len());
            }
            return None;
        }
        let entry = &pairs[idx as usize].1;
        proof {
            assert(keys_of(pairs@)[idx as int] == pairs@[idx as int].0@);
        }
        Some((action_to_type_index(&entry.action), action_to_detail(&entry.action)))
    }

    /// Starts editing the gesture at position `idx` of the current application's list:
    /// the directions and button come from its key, which is kept as the original name.
    /// Returns the values the edit dialog shows, or nothing for a position out of range.
    pub fn begin_edit_gesture(&mut self, idx: i32) -> (r: Option<EditForm>)
        ensures
            r is Some == old(self).in_list(idx),
            r is None ==> *final(self) == *old(self),
            r matches Some(form) ==> {
                let key = old(self).spec_pair_keys()[idx as int];
                let entry = old(self).spec_entry_at(idx as int);
                &&& form.entry_name@ == entry.name
                &&& form.direction_display@ == mnemonic(key)
                &&& form.action_type_index == type_index(entry.action)
                &&& form.action_detail@ == action_detail(entry.action)
                &&& form.window_command_index == match entry.action {
                    ActionView::Window(c) => command_index(c),
                    _ => 0,
                }
                &&& form.trigger_button_index == button_index(parsed_key(key).0)
                &&& form.shortcut_display@ == match entry.action {
                    ActionView::Keyboard(keys) => keys_display(keys),
                    _ => ""@,
                }
                &&& views(final(self).edit_directions@) == parsed_key(key).1
                &&& final(self).edit_trigger_button == parsed_key(key).0
                &&& opt_str(final(self).edit_original_name) == Some(key)
                &&& final(self).config == old(self).config
                &&& final(self).current_app == old(self).current_app
                &&& final(self).app_names == old(self).app_names
                &&& final(self).config_path == old(self).config_path
            },
    {
        let pairs = self.gesture_pairs();
        if idx < 0 || idx as usize >= pairs.len() {
            proof {
                assert(keys_of(pairs@).len() == pairs@.len());
            }
            return None;
        }
        let name = &pairs[idx as usize].0;
        let entry = &pairs[idx as usize].1;
        proof {
            assert(keys_of(pairs@)[idx as int] == name@);
        }
        let (tb, dirs) = parse_gesture_key(name.as_str());
        let disp = gesture_name_to_mnemonic(name.as_str());
        let t_idx = action_to_type_index(&entry.action);
        let det = action_to_detail(&entry.action);
        let wc_idx = match &entry.action {
            Action::Window(w) => window_command_to_index(&w.command),
            _ => 0,
        };
        let sc_disp = match &entry.action {
            Action::Keyboard(kb) => format_keys_display(&kb.keys),
            _ => String::new(),
        };
        self.edit_directions = dirs;
        self.edit_trigger_button = tb;
        self.edit_original_name = Some(name.clone());
        proof {
            reveal_strlit("");
        }
        let form = EditForm {
            entry_name: entry.name.clone(),
            direction_display: disp,
            action_type_index: t_idx,
            action_detail: det,
            window_command_index: wc_idx,
            trigger_button_index: trigger_button_to_index(&tb),
            shortcut_display: sc_disp,
        };
        Some(form)
    }

    /// Changes the type of the action of the selected gesture (position `selected_idx`),
    /// building the new action from the old action's detail text. Nothing changes when
    /// no gesture is selected or the type index is unknown.
    pub fn change_action_type(&mut self, selected_idx: i32, new_type_idx: i32) -> (r: bool)
        ensures
            r == (old(self).in_list(selected_idx) && typed_action(
                new_type_idx,
                action_detail(old(self).spec_entry_at(selected_idx as int).action),
            ) is Some),
            !r ==> *final(self) == *old(self),
            r ==> final(self).same_apart_from_gestures(*old(self)),
            r ==> final(self).current_map_became(
                *old(self),
                old(self).spec_gesture_map(old(self).current_app@).insert(
                    old(self).spec_pair_keys()[selected_idx as int],
                    GestureEntryView {
                        name: old(self).spec_entry_at(selected_idx as int).name,
                        action: typed_action(
                            new_type_idx,
                            action_detail(old(self).spec_entry_at(selected_idx as int).action),
                        ).unwrap(),
                    },
                ),
            ),
    {
        if selected_idx < 0 {
            return false;
        }
        let pairs = self.gesture_pairs();
        if selected_idx as usize >= pairs.len() {
            proof {
                assert(keys_of(pairs@).len() == pairs@.len());
            }
            return false;
        }
        let gesture_name = &pairs[selected_idx as usize].0;
        let old_entry = &pairs[selected_idx as usize].1;
        proof {
            assert(keys_of(pairs@)[selected_idx as int] == gesture_name@);
        }
        let detail = action_to_detail(&old_entry.action);
        let new_action = match new_type_idx {
            0 => {
                let mut keys: Vec<String> = Vec::new();
                keys.push(detail);
                proof {
                    assert(views(keys@) =~= seq![detail@]);
                }
                Action::Keyboard(KeyboardAction { keys })
            },
            1 => Action::Mouse(MouseAction { button: MouseButton::Left, action_type: MouseActionType::Click }),
            2 => Action::Window(WindowAction { command: WindowCommand::Minimize }),
            3 => Action::Run(RunAction { command: detail, args: None }),
            _ => {
                return false;
            },
        };
        let new_entry = GestureEntry { name: old_entry.name.clone(), action: new_action };
        self.set_gesture(gesture_name.clone(), new_entry);
        true
    }

    /// Replaces the action of the selected gesture (position `selected_idx`) by one of the
    /// same type built from the new detail text. Nothing changes when no gesture is
    /// selected.
    pub fn change_action_detail(&mut self, selected_idx: i32, detail: String) -> (r: bool)
        ensures
            r == old(self).in_list(selected_idx),
            !r ==> *final(self) == *old(self),
            r ==> final(self).same_apart_from_gestures(*old(self)),
            r ==> final(self).current_map_became(
                *old(self),
                old(self).spec_gesture_map(old(self).current_app@).insert(
                    old(self).spec_pair_keys()[selected_idx as int],
                    GestureEntryView {
                        name: old(self).spec_entry_at(selected_idx as int).name,
                        action: detail_action(
                            type_index(old(self).spec_entry_at(selected_idx as int).action),
                            detail@,
                        ).unwrap(),
                    },
                ),
            ),
    {
        if selected_idx < 0 {
            return false;
        }
        let pairs = self.gesture_pairs();
        if selected_idx as usize >= pairs.len() {
            proof {
                assert(keys_of(pairs@).len() == pairs@.len());
            }
            return false;
        }
        let gesture_name = &pairs[selected_idx as usize].0;
        let old_entry = &pairs[selected_idx as usize].1;
        proof {
            assert(keys_of(pairs@)[selected_idx as int] == gesture_name@);
            reveal_strlit("+");
        }
        let type_idx = action_to_type_index(&old_entry.action);
        let new_action = match type_idx {
            0 => Action::Keyboard(KeyboardAction { keys: split_trimmed(detail.as_str(), "+") }),
            1 => Action::Mouse(MouseAction { button: MouseButton::Left, action_type: MouseActionType::Click }),
            2 => Action::Window(WindowAction { command: WindowCommand::Minimize }),
            3 => Action::Run(RunAction { command: detail, args: None }),
            _ => {
                return false;
            },
        };
        let new_entry = GestureEntry { name: old_entry.name.clone(), action: new_action };
        self.set_gesture(gesture_name.clone(), new_entry);
        true
    }

    /// The configuration key of the gesture being edited, for button `b`.
    fn edit_key_for(&self, b: GestureTriggerButton) -> (r: String)
        ensures
            r@ == edit_key(b, views(self.edit_directions@)),
    {
        let mut key = String::from_str(b.key_prefix());
        let joined = join_strings(&self.edit_directions, GESTURE_DIR_SEPARATOR);
        key.append(joined.as_str());
        key
    }

    /// Takes a captured gesture as the directions and button being edited; returns the
    /// mnemonic of its key.
    pub fn apply_capture(&mut self, captured: CaptureResult) -> (r: String)
        ensures
            views(final(self).edit_directions@) == captured@.directions,
            final(self).edit_trigger_button == captured@.trigger_button,
            r@ == mnemonic(edit_key(captured@.trigger_button, captured@.directions)),
            final(self).edit_original_name == old(self).edit_original_name,
            final(self).config == old(self).config,
            final(self).current_app == old(self).current_app,
            final(self).app_names == old(self).app_names,
            final(self).config_path == old(self).config_path,
    {
        self.edit_directions = captured.directions;
        self.edit_trigger_button = captured.trigger_button;
        let key = self.edit_key_for(captured.trigger_button);
        gesture_name_to_mnemonic(key.as_str())
    }

    /// Forgets the directions of the gesture being edited.
    pub fn clear_directions(&mut self)
        ensures
            final(self).edit_directions@.len() == 0,
            final(self).edit_trigger_button == old(self).edit_trigger_button,
            final(self).edit_original_name == old(self).edit_original_name,
            final(self).config == old(self).config,
            final(self).current_app == old(self).current_app,
            final(self).app_names == old(self).app_names,
            final(self).config_path == old(self).config_path,
    {
        self.edit_directions.clear();
    }

    /// Gives up editing: no directions and no original name.
    pub fn cancel_edit(&mut self)
        ensures
            final(self).edit_directions@.len() == 0,
            final(self).edit_original_name is None,
            final(self).edit_trigger_button == old(self).edit_trigger_button,
            final(self).config == old(self).config,
            final(self).current_app == old(self).current_app,
            final(self).app_names == old(self).app_names,
            final(self).config_path == old(self).config_path,
    {
        self.edit_directions.clear();
        self.edit_original_name = None;
    }

    /// The current application's gestures once the gesture being edited, stored as
    /// `key`, no longer sits under a different original key.
    pub open spec fn without_original(self, key: Seq<char>) -> Map<Seq<char>, GestureEntryView> {
        let m = self.spec_gesture_map(self.current_app@);
        match opt_str(self.edit_original_name) {
            Some(o) => if o != key {
                m.remove(o)
            } else {
                m
            },
            None => m,
        }
    }

    /// Confirms the edit dialog. With at least one direction, the gesture key is built
    /// from the chosen button and the directions; when editing under another key, the
    /// old key is removed; then, for a known action type, the entry is stored under the
    /// new key and editing ends. Returns whether the entry was stored.
    pub fn confirm_edit(
        &mut self,
        action_type_idx: i32,
        action_detail: String,
        window_cmd_idx: i32,
        gesture_name_input: String,
        trigger_button_idx: i32,
    ) -> (r: bool)
        ensures
            old(self).edit_directions@.len() == 0 ==> !r && *final(self) == *old(self),
            old(self).edit_directions@.len() > 0 ==> {
                let b = button_of_index(trigger_button_idx);
                let key = edit_key(b, views(old(self).edit_directions@));
                let act = confirmed_action(action_type_idx, action_detail@, window_cmd_idx);
                let base = old(self).without_original(key);
                &&& r == act is Some
                &&& final(self).edit_trigger_button == b
                &&& final(self).current_map_became(
                    *old(self),
                    if r {
                        base.insert(key, GestureEntryView { name: gesture_name_input@, action: act.unwrap() })
                    } else {
                        base
                    },
                )
                &&& final(self).edit_original_name == if r {
                    None
                } else {
                    old(self).edit_original_name
                }
                &&& final(self).edit_directions == old(self).edit_directions
                &&& final(self).current_app == old(self).current_app
                &&& final(self).app_names == old(self).app_names
                &&& final(self).config_path == old(self).config_path
                &&& final(self).config.version == old(self).config.version
                &&& final(self).config.disabled_apps == old(self).config.disabled_apps
                &&& final(self).config.settings == old(self).config.settings
                &&& final(self).config.app_gestures.view().dom() == if r && old(
                    self,
                ).current_app@ != global_name() {
                    old(self).config.app_gestures.view().dom().insert(old(self).current_app@)
                } else {
                    old(self).config.app_gestures.view().dom()
                }
            },
    {
        let trigger_button = index_to_trigger_button(trigger_button_idx);
        if self.edit_directions.len() == 0 {
            return false;
        }
        self.edit_trigger_button = trigger_button;
        let gesture_key = self.edit_key_for(trigger_button);
        let ghost mid = *self;
        let old_name_to_remove: Option<String> = match &self.edit_original_name {
            Some(original_name) => if !str_eq(original_name.as_str(), gesture_key.as_str()) {
                Some(original_name.clone())
            } else {
                None
            },
            None => None,
        };
        match old_name_to_remove {
            Some(old_name) => {
                self.remove_gesture(old_name.as_str());
            },
            None => {},
        }
        let ghost s2 = *self;
        proof {
            reveal_strlit("");
            reveal_strlit("VK_UNKNOWN");
            reveal_strlit("notepad.exe");
            reveal_strlit("+");
            assert(forall|a: Seq<char>| #[trigger]
                self.spec_gesture_map(a) == if a == mid.current_app@ {
                    mid.without_original(gesture_key@)
                } else {
                    mid.spec_gesture_map(a)
                });
        }
        let new_action = if action_type_idx == 2 {
            Action::Window(WindowAction { command: index_to_window_command(window_cmd_idx) })
        } else {
            match action_type_idx {
                0 => {
                    let keys = if action_detail.unicode_len() == 0 {
                        let mut k: Vec<String> = Vec::new();
                        k.push(String::from_str("VK_UNKNOWN"));
                        proof {
                            assert(views(k@) =~= seq!["VK_UNKNOWN"@]);
                        }
                        k
                    } else {
                        split_trimmed(action_detail.as_str(), "+")
                    };
                    Action::Keyboard(KeyboardAction { keys })
                },
                1 => Action::Mouse(MouseAction { button: MouseButton::Left, action_type: MouseActionType::Click }),
                3 => Action::Run(
                    RunAction {
                        command: if action_detail.unicode_len() == 0 {
                            String::from_str("notepad.exe")
                        } else {
                            action_detail
                        },
                        args: None,
                    },
                ),
                _ => {
                    return false;
                },
            }
        };
        let ghost name_view = gesture_name_input@;
        let ghost act = confirmed_action(action_type_idx, action_detail@, window_cmd_idx);
        let entry = GestureEntry { name: gesture_name_input, action: new_action };
        let ghost ev = entry@;
        proof {
            assert(Some(ev.action) == act);
            assert(ev == GestureEntryView { name: name_view, action: act.unwrap() });
            assert(mid.without_original(gesture_key@) == old(self).without_original(gesture_key@));
        }
        let ghost gk = gesture_key@;
        self.set_gesture(gesture_key, entry);
        let ghost s3 = *self;
        self.edit_original_name = None;
        proof {
            assert forall|a: Seq<char>| #[trigger] self.spec_gesture_map(a) == if a == old(
                self,
            ).current_app@ {
                old(self).without_original(gesture_key@).insert(gesture_key@, ev)
            } else {
                old(self).spec_gesture_map(a)
            } by {
                assert(s2.spec_gesture_map(a) == if a == mid.current_app@ {
                    mid.without_original(gesture_key@)
                } else {
                    mid.spec_gesture_map(a)
                });
                assert(mid.spec_gesture_map(a) == old(self).spec_gesture_map(a));
                assert(s3.spec_gesture_map(a) == if a == s2.current_app@ {
                    s2.spec_gesture_map(a).insert(gk, ev)
                } else {
                    s2.spec_gesture_map(a)
                });
                assert(self.spec_gesture_map(a) == s3.spec_gesture_map(a));
            }
        }
        true
    }
}

/// The settings dialog of the configuration file at `config_path`.
pub struct ConfigDialog {
    config_path: String,
}

impl ConfigDialog {
    /// The path of the configuration file the dialog edits.
    pub closed spec fn spec_config_path(&self) -> Seq<char> {
        self.config_path@
    }

    /// A dialog for the configuration file at `config_path`.
    pub fn new(config_path: String) -> (d: Self)
        ensures
            d.spec_config_path() == config_path@,
    {
        ConfigDialog { config_path }
    }

    /// The path of the configuration file the dialog edits.
    pub fn config_path(&self) -> (r: &str)
        ensures
            r@ == self.spec_config_path(),
    {
        self.config_path.as_str()
    }
}

impl DialogState {
    /// The rows of the gesture list of the current application, in key order.
    pub fn gesture_rows(&self) -> (r: Vec<GestureRow>)
        ensures
            r@.len() == self.spec_pair_keys().len(),
            forall|i: int| 0 <= i < r@.len() ==> {
                let key = self.spec_pair_keys()[i];
                let e = self.spec_gesture_map(self.current_app@)[key];
                &&& (#[trigger] r@[i]).name@ == if e.name.len() == 0 {
                    key
                } else {
                    e.name
                }
                &&& r@[i].mnemonic@ == mnemonic(key)
                &&& r@[i].action_type@ == type_index_display(type_index(e.action))
                &&& r@[i].action_params@ == params_display(e.action)
            },
    {
        let pairs = self.gesture_pairs();
        let ghost m = self.spec_gesture_map(self.current_app@);
        let mut rows: Vec<GestureRow> = Vec::new();
        let mut i: usize = 0;
        while i < pairs.len()
            invariant
                i <= pairs@.len(),
                keys_of(pairs@) == self.spec_pair_keys(),
                keys_of(pairs@).to_set() == m.dom(),
                m == self.spec_gesture_map(self.current_app@),
                forall|j: int| 0 <= j < pairs@.len() ==> (#[trigger] pairs@[j]).1@ == m[pairs@[j].0@],
                rows@.len() == i,
                forall|j: int| 0 <= j < i ==> {
                    let key = self.spec_pair_keys()[j];
                    let e = m[key];
                    &&& (#[trigger] rows@[j]).name@ == if e.name.len() == 0 {
                        key
                    } else {
                        e.name
                    }
                    &&& rows@[j].mnemonic@ == mnemonic(key)
                    &&& rows@[j].action_type@ == type_index_display(type_index(e.action))
                    &&& rows@[j].action_params@ == params_display(e.action)
                },
            decreases pairs.len() - i,
        {
            let key = &pairs[i].0;
            let entry = &pairs[i].1;
            proof {
                assert(keys_of(pairs@)[i as int] == key@);
                assert(keys_of(pairs@).to_set().contains(key@));
            }
            let name = if entry.name.unicode_len() == 0 {
                key.clone()
            } else {
                entry.name.clone()
            };
            rows.push(
                GestureRow {
                    name,
                    mnemonic: gesture_name_to_mnemonic(key.as_str()),
                    action_type: action_type_display(&entry.action),
                    action_params: action_params_display(&entry.action),
                },
            );
            i = i + 1;
        }
        rows
    }

    /// The rows of the application list: each name, its shown name, and whether it is
    /// the current application.
    pub fn app_rows(&self) -> (r: Vec<AppRow>)
        ensures
            r@.len() == self.app_names@.len(),
            forall|i: int| 0 <= i < r@.len() ==> {
                &&& (#[trigger] r@[i]).name@ == self.app_names@[i]@
                &&& r@[i].selected == (self.app_names@[i]@ == self.current_app@)
                &&& shown_name_fits(self.app_names@[i]@, r@[i].display_name@)
            },
    {
        let mut rows: Vec<AppRow> = Vec::new();
        let mut i: usize = 0;
        while i < self.app_names.len()
            invariant
                i <= self.app_names@.len(),
                rows@.len() == i,
                forall|j: int| 0 <= j < i ==> {
                    &&& (#[trigger] rows@[j]).name@ == self.app_names@[j]@
                    &&& rows@[j].selected == (self.app_names@[j]@ == self.current_app@)
                    &&& shown_name_fits(self.app_names@[j]@, rows@[j].display_name@)
                },
            decreases self.app_names.len() - i,
        {
            let name = &self.app_names[i];
            let shown = Self::display_name_for_app(name.as_str());
            let ghost before = rows@;
            let row = AppRow {
                name: name.clone(),
                display_name: shown,
                selected: str_eq(name.as_str(), self.current_app.as_str()),
            };
            rows.push(row);
            proof {
                assert forall|j: int| 0 <= j < i + 1 implies {
                    &&& (#[trigger] rows@[j]).name@ == self.app_names@[j]@
                    &&& rows@[j].selected == (self.app_names@[j]@ == self.current_app@)
                    &&& shown_name_fits(self.app_names@[j]@, rows@[j].display_name@)
                } by {
                    if j < i {
                        assert(rows@[j] == before[j]);
                    } else {
                        assert(rows@[j] == row);
                    }
                }
            }
            i = i + 1;
        }
        rows
    }
}

/// A direction name is a non-empty run of letters: nothing to trim, and none of the
/// separator's characters.
proof fn lemma_dir_name_plain(d: GestureDir)
    ensures
        d.spec_dir_name().len() > 0,
        trim(d.spec_dir_name()) == d.spec_dir_name(),
        avoids(d.spec_dir_name(), separator()),
{
    reveal_strlit(" → ");
    reveal_strlit("Up");
    reveal_strlit("Down");
    reveal_strlit("Left");
    reveal_strlit("Right");
    reveal_strlit("UpLeft");
    reveal_strlit("UpRight");
    reveal_strlit("DownLeft");
    reveal_strlit("DownRight");
    let n = d.spec_dir_name();
    let sep = separator();
    assert(sep =~= seq![' ', '→', ' ']);
    assert(forall|k: int| 0 <= k < n.len() ==> 'A' <= #[trigger] n[k] <= 'z');
    assert forall|k: int| 0 <= k < n.len() implies !sep.contains(#[trigger] n[k]) by {
        if sep.contains(n[k]) {
            let j = choose|j: int| 0 <= j < sep.len() && sep[j] == n[k];
            assert(j == 0 || j == 1 || j == 2);
        }
    }
    assert(!is_ws(n[0]));
    assert(!is_ws(n.last()));
    assert(trim_start(n) == n);
    assert(trim_end(n) == n);
}

/// Pieces with nothing to trim and none empty are kept as they are.
proof fn lemma_trimmed_nonempty_plain(parts: Seq<Seq<char>>)
    requires
        forall|i: int| 0 <= i < parts.len() ==> (#[trigger] parts[i]).len() > 0 && trim(parts[i]) == parts[i],
    ensures
        trimmed_nonempty(parts) == parts,
    decreases parts.len(),
{
    if parts.len() > 0 {
        let dl = parts.drop_last();
        assert forall|i: int| 0 <= i < dl.len() implies (#[trigger] dl[i]).len() > 0 && trim(dl[i])
            == dl[i] by {
            assert(dl[i] == parts[i]);
        }
        lemma_trimmed_nonempty_plain(dl);
        assert(parts.last() == parts[parts.len() - 1]);
        assert(dl.push(parts.last()) =~= parts);
    }
}

/// Reading back the configuration key of a gesture gives its trigger button and the
/// names of its directions: the settings dialog recovers what the intent finder looks up.
pub proof fn lemma_gesture_key_round_trip(g: GestureView)
    ensures
        parsed_key(spec_gesture_key(g)).0 == g.trigger_button,
        parsed_key(spec_gesture_key(g)).1 == g.directions.map_values(|d: GestureDir| d.spec_dir_name()),
{
    reveal_strlit("M_");
    reveal_strlit("R_");
    reveal_strlit("X1_");
    reveal_strlit("X2_");
    reveal_strlit(" → ");
    let names = g.directions.map_values(|d: GestureDir| d.spec_dir_name());
    let body = join(names, separator());
    let prefix = g.trigger_button.spec_key_prefix();
    let key = spec_gesture_key(g);
    assert(key == prefix + body);
    assert(key.skip(prefix.len() as int) =~= body);
    assert forall|i: int| 0 <= i < names.len() implies (#[trigger] names[i]).len() > 0 && trim(
        names[i],
    ) == names[i] && avoids(names[i], separator()) by {
        lemma_dir_name_plain(g.directions[i]);
    }
    let parts = split(body, separator());
    if names.len() == 0 {
        assert(body == Seq::<char>::empty());
        assert(parts == seq![Seq::<char>::empty()]) by {
            assert(Seq::<char>::empty().subrange(0, 0) =~= Seq::<char>::empty());
        }
        assert(trim(Seq::<char>::empty()) == Seq::<char>::empty());
        assert(parts.drop_last() =~= Seq::<Seq<char>>::empty());
        assert(parts.last() == Seq::<char>::empty());
        assert(trimmed_nonempty(Seq::<Seq<char>>::empty()) == Seq::<Seq<char>>::empty());
        assert(trimmed_nonempty(parts) =~= names);
    } else {
        lemma_split_join(names, separator());
        lemma_trimmed_nonempty_plain(names);
    }
    match g.trigger_button {
        GestureTriggerButton::Middle => {
            assert(has_prefix(key, "M_"@)) by {
                assert(key.subrange(0, 2) =~= "M_"@);
            }
        },
        GestureTriggerButton::Right => {
            assert(key[0] == 'R');
            assert(!has_prefix(key, "M_"@)) by {
                if has_prefix(key, "M_"@) {
                    assert(key.subrange(0, 2)[0] == key[0]);
                }
            }
            assert(has_prefix(key, "R_"@)) by {
                assert(key.subrange(0, 2) =~= "R_"@);
            }
        },
        GestureTriggerButton::X1 => {
            assert(key[0] == 'X' && key[1] == '1');
            assert(!has_prefix(key, "M_"@)) by {
                if has_prefix(key, "M_"@) {
                    assert(key.subrange(0, 2)[0] == key[0]);
                }
            }
            assert(!has_prefix(key, "R_"@)) by {
                if has_prefix(key, "R_"@) {
                    assert(key.subrange(0, 2)[0] == key[0]);
                }
            }
            assert(has_prefix(key, "X1_"@)) by {
                assert(key.subrange(0, 3) =~= "X1_"@);
            }
        },
        GestureTriggerButton::X2 => {
            assert(key[0] == 'X' && key[1] == '2');
            assert(!has_prefix(key, "M_"@)) by {
                if has_prefix(key, "M_"@) {
                    assert(key.subrange(0, 2)[0] == key[0]);
                }
            }
            assert(!has_prefix(key, "R_"@)) by {
                if has_prefix(key, "R_"@) {
                    assert(key.subrange(0, 2)[0] == key[0]);
                }
            }
            assert(!has_prefix(key, "X1_"@)) by {
                if has_prefix(key, "X1_"@) {
                    assert(key.subrange(0, 3)[1] == key[1]);
                }
            }
            assert(has_prefix(key, "X2_"@)) by {
                assert(key.subrange(0, 3) =~= "X2_"@);
            }
        },
    }
}

/// The key the edit dialog stores for a gesture drawn with button `g.trigger_button`
/// along `g.directions` is the key the intent finder looks up for that gesture.
pub proof fn lemma_edit_key_is_lookup_key(g: GestureView)
    ensures
        edit_key(g.trigger_button, g.directions.map_values(|d: GestureDir| d.spec_dir_name()))
            == spec_gesture_key(g),
{
}

/// What the settings dialog shows for an application is what gesture lookup finds with
/// the same configuration: an entry listed for an application is found for gestures in
/// that application, and an entry listed under "global" is found when no application
/// is given.
pub proof fn lemma_listed_entries_are_found(s: DialogState, app: Seq<char>, key: Seq<char>)
    requires
        s.spec_gesture_map(app).contains_key(key),
    ensures
        app == global_name() ==> lookup(
            entries_view(s.config.global_gestures.view()),
            apps_view(s.config.app_gestures.view()),
            key,
            None,
        ) == Some(s.spec_gesture_map(app)[key]),
        app != global_name() ==> lookup(
            entries_view(s.config.global_gestures.view()),
            apps_view(s.config.app_gestures.view()),
            key,
            Some(app),
        ) == Some(s.spec_gesture_map(app)[key]),
{
    if app != global_name() {
        assert(apps_view(s.config.app_gestures.view())[app] == entries_view(
            s.config.app_gestures.view()[app].view(),
        ));
    }
}

} // verus!
