//! Gesture intent finder: matches recognized gestures to configured actions.
use vstd::prelude::*;
use vstd::string::*;
use crate::config::{
    Action, ActionView, GestureConfig, GestureEntry, GestureEntryView, entries_view, apps_view,
    copy_gesture_map, copy_app_maps,
};
use crate::gesture::{Gesture, GestureView, GestureDir, GestureModifier, separator, GESTURE_DIR_SEPARATOR};
use crate::strmap::StrMap;
use crate::text::{join, views, join_strings};

verus! {

/// Abstract value of an intent.
pub struct IntentView {
    pub gesture: GestureView,
    pub action: ActionView,
    pub name: Seq<char>,
}

/// Gesture intent represents a matched gesture with its action
#[derive(Debug, Clone)]
pub struct GestureIntent {
    pub gesture: Gesture,
    pub action: Action,
    pub name: String,
}

impl View for GestureIntent {
    type V = IntentView;

    open spec fn view(&self) -> IntentView {
        IntentView { gesture: self.gesture@, action: self.action@, name: self.name@ }
    }
}

impl GestureIntent {
    /// Check if this intent can be executed during the gesture (e.g., scroll wheel)
    pub fn can_execute_on_modifier(&self) -> (r: bool)
        ensures
            r == (self.action@ is Window || self.action@ is Mouse),
    {
        match &self.action {
            Action::Window(_) | Action::Mouse(_) => true,
            _ => false,
        }
    }
}

/// The names of a gesture's directions joined by the separator ("Right → Down").
pub open spec fn spec_directions_key(g: GestureView) -> Seq<char> {
    join(g.directions.map_values(|d: GestureDir| d.spec_dir_name()), separator())
}

/// The lookup key of a gesture: button prefix then directions ("M_Right → Down").
pub open spec fn spec_gesture_key(g: GestureView) -> Seq<char> {
    g.trigger_button.spec_key_prefix() + spec_directions_key(g)
}

/// The text a modifier adds to a lookup key.
pub open spec fn spec_modifier_text(m: GestureModifier) -> Seq<char> {
    match m {
        GestureModifier::LeftButtonDown => "+ LeftButton"@,
        GestureModifier::RightButtonDown => "+ RightButton"@,
        GestureModifier::MiddleButtonDown => "+ MiddleButton"@,
        GestureModifier::X1ButtonDown => "+ X1Button"@,
        GestureModifier::X2ButtonDown => "+ X2Button"@,
        GestureModifier::WheelForward => "+ WheelForward"@,
        GestureModifier::WheelBackward => "+ WheelBackward"@,
    }
}

/// The lookup key of a gesture with its modifiers ("M_Up + WheelForward").
pub open spec fn spec_key_with_modifiers(g: GestureView) -> Seq<char> {
    join(
        seq![spec_gesture_key(g)] + g.modifiers.map_values(|m: GestureModifier| spec_modifier_text(m)),
        " "@,
    )
}

/// The entry for `key`: the application's own entry when the application has one,
/// otherwise the global entry, otherwise none.
pub open spec fn lookup(
    global: Map<Seq<char>, GestureEntryView>,
    apps: Map<Seq<char>, Map<Seq<char>, GestureEntryView>>,
    key: Seq<char>,
    app: Option<Seq<char>>,
) -> Option<GestureEntryView> {
    if app is Some && apps.contains_key(app.unwrap()) && apps[app.unwrap()].contains_key(key) {
        Some(apps[app.unwrap()][key])
    } else if global.contains_key(key) {
        Some(global[key])
    } else {
        None
    }
}

/// The view of an optional string slice.
pub open spec fn opt_str_view(o: Option<&str>) -> Option<Seq<char>> {
    match o {
        Some(s) => Some(s@),
        None => None,
    }
}

/// The intent for gesture `g` found from entry `e`.
pub open spec fn intent_of(g: GestureView, e: GestureEntryView) -> IntentView {
    IntentView { gesture: g, action: e.action, name: e.name }
}

/// The view of an optional intent.
pub open spec fn opt_intent_view(o: Option<GestureIntent>) -> Option<IntentView> {
    match o {
        Some(i) => Some(i@),
        None => None,
    }
}

/// Gesture intent finder
pub struct GestureIntentFinder {
    config: GestureConfig,
    // Cache gesture strings for faster lookup
    global_cache: StrMap<GestureEntry>,
    // App-specific caches
    app_caches: StrMap<StrMap<GestureEntry>>,
}

impl GestureIntentFinder {
    #[verifier::type_invariant]
    spec fn caches_match_config(self) -> bool {
        &&& entries_view(self.global_cache.view()) == entries_view(self.config.global_gestures.view())
        &&& apps_view(self.app_caches.view()) == apps_view(self.config.app_gestures.view())
    }

    /// The configuration the finder works from.
    pub closed spec fn spec_config(self) -> GestureConfig {
        self.config
    }

    /// The global gestures, by key.
    pub open spec fn global_view(self) -> Map<Seq<char>, GestureEntryView> {
        entries_view(self.spec_config().global_gestures.view())
    }

    /// The per-application gestures, by application and key.
    pub open spec fn apps_view(self) -> Map<Seq<char>, Map<Seq<char>, GestureEntryView>> {
        apps_view(self.spec_config().app_gestures.view())
    }

    /// Create a new gesture intent finder
    pub fn new(config: GestureConfig) -> (f: Self)
        ensures
            f.spec_config() == config,
    {
        let global_cache = Self::build_global_cache(&config);
        let app_caches = Self::build_app_caches(&config);
        GestureIntentFinder { config, global_cache, app_caches }
    }

    /// Build cache for global gestures
    fn build_global_cache(config: &GestureConfig) -> (r: StrMap<GestureEntry>)
        ensures
            entries_view(r.view()) == entries_view(config.global_gestures.view()),
    {
        copy_gesture_map(&config.global_gestures)
    }

    /// Build caches for app-specific gestures
    fn build_app_caches(config: &GestureConfig) -> (r: StrMap<StrMap<GestureEntry>>)
        ensures
            apps_view(r.view()) == apps_view(config.app_gestures.view()),
    {
        copy_app_maps(&config.app_gestures)
    }

    /// Update configuration
    pub fn update_config(&mut self, config: GestureConfig)
        ensures
            final(self).spec_config() == config,
    {
        let global_cache = Self::build_global_cache(&config);
        let app_caches = Self::build_app_caches(&config);
        *self = GestureIntentFinder { config, global_cache, app_caches };
    }

    /// The cached global gestures.
    pub fn global_cache(&self) -> (r: &StrMap<GestureEntry>)
        ensures
            entries_view(r.view()) == self.global_view(),
    {
        proof {
            use_type_invariant(self);
        }
        &self.global_cache
    }

    /// The entry for `key` in the caches, application entries first.
    fn lookup_entry(&self, key: &str, app_name: Option<&str>) -> (r: Option<&GestureEntry>)
        ensures
            match r {
                Some(e) => lookup(self.global_view(), self.apps_view(), key@, opt_str_view(app_name))
                    == Some(e@),
                None => lookup(self.global_view(), self.apps_view(), key@, opt_str_view(app_name))
                    is None,
            },
    {
        proof {
            use_type_invariant(self);
        }
        if let Some(app) = app_name {
            if let Some(app_cache) = self.app_caches.get(app) {
                proof {
                    assert(apps_view(self.app_caches.view())[app@] == entries_view(app_cache.view()));
                }
                if let Some(entry) = app_cache.get(key) {
                    return Some(entry);
                }
            } else {
                assert(!apps_view(self.app_caches.view()).contains_key(app@));
            }
        }
        self.global_cache.get(key)
    }

    /// Find the intent for a gesture
    ///
    /// The lookup key includes the trigger button (e.g., "M_Right" for Middle button + Right direction).
    /// Only matches when both the trigger button and direction sequence match exactly.
    pub fn find(&self, gesture: &Gesture, app_name: Option<&str>) -> (r: Option<GestureIntent>)
        ensures
            opt_intent_view(r) == match lookup(
                self.global_view(),
                self.apps_view(),
                spec_gesture_key(gesture@),
                opt_str_view(app_name),
            ) {
                Some(e) => Some(intent_of(gesture@, e)),
                None => None,
            },
    {
        let gesture_str = Self::gesture_to_string(gesture);
        match self.lookup_entry(gesture_str.as_str(), app_name) {
            Some(entry) => Some(
                GestureIntent {
                    gesture: gesture.duplicate(),
                    action: entry.action.duplicate(),
                    name: entry.name.clone(),
                },
            ),
            None => None,
        }
    }

    /// Find intent with modifiers (e.g., scroll wheel during gesture), falling back to
    /// the gesture without modifiers.
    pub fn find_with_modifiers(&self, gesture: &Gesture, app_name: Option<&str>) -> (r: Option<
        GestureIntent,
    >)
        ensures
            opt_intent_view(r) == match lookup(
                self.global_view(),
                self.apps_view(),
                spec_key_with_modifiers(gesture@),
                opt_str_view(app_name),
            ) {
                Some(e) => Some(intent_of(gesture@, e)),
                None => match lookup(
                    self.global_view(),
                    self.apps_view(),
                    spec_gesture_key(gesture@),
                    opt_str_view(app_name),
                ) {
                    Some(e) => Some(intent_of(gesture@, e)),
                    None => None,
                },
            },
    {
        let gesture_with_modifiers = Self::gesture_to_string_with_modifiers(gesture);
        match self.lookup_entry(gesture_with_modifiers.as_str(), app_name) {
            Some(entry) => Some(
                GestureIntent {
                    gesture: gesture.duplicate(),
                    action: entry.action.duplicate(),
                    name: entry.name.clone(),
                },
            ),
            None => self.find(gesture, app_name),
        }
    }

    /// Check if gesturing is enabled for the current context
    pub fn is_gesturing_enabled(&self, app_name: Option<&str>) -> (r: bool)
        ensures
            r == !(app_name is Some && self.spec_config().disabled_apps.view().contains(
                app_name.unwrap()@,
            )),
    {
        if let Some(app) = app_name {
            if self.config.disabled_apps.contains(app) {
                return false;
            }
        }
        true
    }

    /// Convert gesture to string representation (includes trigger button prefix)
    /// Format: "M_Right" (Middle button + Right direction)
    pub fn gesture_to_string(gesture: &Gesture) -> (r: String)
        ensures
            r@ == spec_gesture_key(gesture@),
    {
        let mut r = String::from_str(gesture.trigger_button.key_prefix());
        let dirs = Self::gesture_directions_to_string(gesture);
        r.append(dirs.as_str());
        r
    }

    /// Convert gesture directions to string representation (direction-only, no button prefix)
    pub fn gesture_directions_to_string(gesture: &Gesture) -> (r: String)
        ensures
            r@ == spec_directions_key(gesture@),
    {
        let mut parts: Vec<String> = Vec::new();
        let mut i: usize = 0;
        while i < gesture.directions.len()
            invariant
                i <= gesture.directions@.len(),
                parts@.len() == i,
                forall|k: int|
                    0 <= k < i ==> (#[trigger] parts@[k])@ == gesture.directions@[k].spec_dir_name(),
            decreases gesture.directions.len() - i,
        {
            parts.push(String::from_str(gesture.directions[i].dir_name()));
            i = i + 1;
        }
        proof {
            assert(views(parts@) =~= gesture.directions@.map_values(
                |d: GestureDir| d.spec_dir_name(),
            ));
        }
        join_strings(&parts, GESTURE_DIR_SEPARATOR)
    }

    /// The text a modifier adds to a lookup key.
    pub fn modifier_text(modifier: &GestureModifier) -> (r: &'static str)
        ensures
            r@ == spec_modifier_text(*modifier),
    {
        match modifier {
            GestureModifier::LeftButtonDown => "+ LeftButton",
            GestureModifier::RightButtonDown => "+ RightButton",
            GestureModifier::MiddleButtonDown => "+ MiddleButton",
            GestureModifier::X1ButtonDown => "+ X1Button",
            GestureModifier::X2ButtonDown => "+ X2Button",
            GestureModifier::WheelForward => "+ WheelForward",
            GestureModifier::WheelBackward => "+ WheelBackward",
        }
    }

    /// Convert gesture to string with modifiers (includes trigger button prefix)
    pub fn gesture_to_string_with_modifiers(gesture: &Gesture) -> (r: String)
        ensures
            r@ == spec_key_with_modifiers(gesture@),
    {
        let mut parts: Vec<String> = Vec::new();
        // Add directions with button prefix
        parts.push(Self::gesture_to_string(gesture));
        // Add modifiers
        let mut i: usize = 0;
        while i < gesture.modifiers.len()
            invariant
                i <= gesture.modifiers@.len(),
                parts@.len() == i + 1,
                parts@[0]@ == spec_gesture_key(gesture@),
                forall|k: int|
                    0 <= k < i ==> (#[trigger] parts@[k + 1])@ == spec_modifier_text(
                        gesture.modifiers@[k],
                    ),
            decreases gesture.modifiers.len() - i,
        {
            parts.push(String::from_str(Self::modifier_text(&gesture.modifiers[i])));
            i = i + 1;
        }
        proof {
            let want = seq![spec_gesture_key(gesture@)] + gesture.modifiers@.map_values(
                |m: GestureModifier| spec_modifier_text(m),
            );
            assert forall|k: int| 0 <= k < want.len() implies views(parts@)[k] == want[k] by {
                if k > 0 {
                    assert(parts@[(k - 1) + 1]@ == spec_modifier_text(gesture.modifiers@[k - 1]));
                }
            }
            assert(views(parts@) =~= want);
        }
        join_strings(&parts, " ")
    }

    /// Get a gesture action from global or app-specific config
    pub fn get_action(&self, gesture_str: &str, app_name: Option<&str>) -> (r: Option<&Action>)
        ensures
            match r {
                Some(a) => match lookup(
                    self.global_view(),
                    self.apps_view(),
                    gesture_str@,
                    opt_str_view(app_name),
                ) {
                    Some(e) => a@ == e.action,
                    None => false,
                },
                None => lookup(self.global_view(), self.apps_view(), gesture_str@, opt_str_view(app_name))
                    is None,
            },
    {
        match self.lookup_entry(gesture_str, app_name) {
            Some(entry) => Some(&entry.action),
            None => None,
        }
    }

    /// Get the configuration
    pub fn config(&self) -> (r: &GestureConfig)
        ensures
            *r == self.spec_config(),
    {
        &self.config
    }
}

/// How a gesture's entry is chosen for an application: the application's own entry
/// for the key, when it has one, takes precedence over the global one; when it has no
/// entry of its own for the key (no map at all, or a map without the key), the result
/// is what it is with no application, which is the global entry (or none when the
/// global map has no entry either). What an application gets never depends on the
/// maps of other applications.
pub proof fn lemma_application_entry_precedence(
    global: Map<Seq<char>, GestureEntryView>,
    apps: Map<Seq<char>, Map<Seq<char>, GestureEntryView>>,
    key: Seq<char>,
    app: Seq<char>,
)
    ensures
        apps.contains_key(app) && apps[app].contains_key(key) ==> lookup(global, apps, key, Some(app))
            == Some(apps[app][key]),
        !(apps.contains_key(app) && apps[app].contains_key(key)) ==> lookup(global, apps, key, Some(app))
            == lookup(global, apps, key, None),
        global.contains_key(key) ==> lookup(global, apps, key, None) == Some(global[key]),
        !global.contains_key(key) ==> lookup(global, apps, key, None) is None,
        lookup(global, apps, key, Some(app)) == lookup(
            global,
            Map::<Seq<char>, Map<Seq<char>, GestureEntryView>>::empty().insert(app, if apps.contains_key(app) {
                apps[app]
            } else {
                Map::empty()
            }),
            key,
            Some(app),
        ),
{
}

} // verus!
