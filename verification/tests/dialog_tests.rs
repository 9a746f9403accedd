use rustgesture::dialog::{format_keys_display, vk_to_display_name};
use rustgesture::capture::CaptureResult;
use rustgesture::config::{
    Action, GestureConfig, GestureEntry, KeyboardAction, MouseActionType, MouseButton, RunAction,
    WindowAction, WindowCommand,
};
use rustgesture::dialog::{gesture_name_to_mnemonic, parse_gesture_key};
use rustgesture::dialog_state::{display_name_from, new_app_name, ConfigDialog, DialogState};
use rustgesture::gesture::{Gesture, GestureDir, GestureTriggerButton};
use rustgesture::intent::GestureIntentFinder;
use rustgesture::strmap::StrMap;

fn entry(name: &str, action: Action) -> GestureEntry {
    GestureEntry { name: name.to_string(), action }
}

fn window(command: WindowCommand) -> Action {
    Action::Window(WindowAction { command })
}

fn keyboard(keys: &[&str]) -> Action {
    Action::Keyboard(KeyboardAction { keys: keys.iter().map(|k| k.to_string()).collect() })
}

fn state_with_apps(apps: &[&str]) -> DialogState {
    let mut config = GestureConfig::default();
    for app in apps {
        config.app_gestures.insert(app.to_string(), StrMap::new());
    }
    DialogState::new("config.json".to_string(), config)
}

fn pair_keys(state: &DialogState) -> Vec<String> {
    state.gesture_pairs().into_iter().map(|(k, _)| k).collect()
}

#[test]
fn app_names_list_global_first_then_sorted() {
    let state = state_with_apps(&["zeta.exe", "chrome.exe", "notepad.exe"]);
    assert_eq!(state.app_names, vec!["global", "chrome.exe", "notepad.exe", "zeta.exe"]);
    assert_eq!(state.current_app, "global");
    assert!(state.edit_directions.is_empty());
    assert!(state.edit_original_name.is_none());
}

#[test]
fn app_names_do_not_repeat_a_leading_global() {
    let state = state_with_apps(&["global", "zz.exe"]);
    assert_eq!(state.app_names, vec!["global", "zz.exe"]);
    // "global" that does not sort first is listed again (adjacent repeats only are removed)
    let state = state_with_apps(&["Zed.exe", "global"]);
    assert_eq!(state.app_names, vec!["global", "Zed.exe", "global"]);
}

#[test]
fn gesture_pairs_are_sorted_by_key() {
    let state = state_with_apps(&[]);
    assert_eq!(pair_keys(&state), vec!["M_Down", "M_Right", "M_Right → Down", "M_Up"]);
    let pairs = state.gesture_pairs();
    assert_eq!(pairs[0].1.name, "最小化");
    assert_eq!(pairs[1].1.name, "Ctrl+L");
}

#[test]
fn set_and_remove_gesture_in_global_and_app() {
    let mut state = state_with_apps(&[]);
    state.set_gesture("R_Left".to_string(), entry("back", keyboard(&["VK_MENU", "VK_LEFT"])));
    assert_eq!(pair_keys(&state), vec!["M_Down", "M_Right", "M_Right → Down", "M_Up", "R_Left"]);
    state.remove_gesture("M_Up");
    assert_eq!(pair_keys(&state), vec!["M_Down", "M_Right", "M_Right → Down", "R_Left"]);

    state.current_app = "chrome.exe".to_string();
    assert!(state.gesture_pairs().is_empty());
    state.set_gesture("M_Left".to_string(), entry("", window(WindowCommand::Close)));
    assert!(state.config.app_gestures.contains_key("chrome.exe"));
    assert_eq!(pair_keys(&state), vec!["M_Left"]);
    assert_eq!(state.gesture_map_for_app("global").len(), 4);
    state.remove_gesture("M_Left");
    assert!(state.gesture_pairs().is_empty());
    // removing from an application without gestures changes nothing
    state.current_app = "none.exe".to_string();
    state.remove_gesture("M_Left");
    assert!(!state.config.app_gestures.contains_key("none.exe"));
}

#[test]
fn select_app_ignores_positions_out_of_range() {
    let mut state = state_with_apps(&["a.exe"]);
    assert!(state.select_app(1));
    assert_eq!(state.current_app, "a.exe");
    assert!(!state.select_app(2));
    assert!(!state.select_app(-1));
    assert_eq!(state.current_app, "a.exe");
}

#[test]
fn add_app_lists_and_selects_it() {
    let mut state = state_with_apps(&["b.exe"]);
    state.add_app(new_app_name(1700000000));
    assert_eq!(state.current_app, "app_1700000000");
    assert_eq!(state.app_names, vec!["global", "app_1700000000", "b.exe"]);
    assert!(state.gesture_pairs().is_empty());
}

#[test]
fn confirm_edit_adds_a_keyboard_gesture() {
    let mut state = state_with_apps(&[]);
    state.begin_add_gesture();
    let shown = state.apply_capture(CaptureResult {
        directions: vec!["Right".to_string(), "Down".to_string()],
        trigger_button: GestureTriggerButton::Right,
    });
    assert_eq!(shown, "R →↓");
    assert!(state.confirm_edit(0, "VK_CONTROL + VK_W".to_string(), 0, "close tab".to_string(), 1));
    let pairs = state.gesture_pairs();
    let (k, e) = pairs.iter().find(|(k, _)| k == "R_Right → Down").unwrap();
    assert_eq!(k, "R_Right → Down");
    assert_eq!(e.name, "close tab");
    match &e.action {
        Action::Keyboard(kb) => assert_eq!(kb.keys, vec!["VK_CONTROL", "VK_W"]),
        _ => panic!("keyboard action expected"),
    }
    assert!(state.edit_original_name.is_none());
    assert_eq!(state.edit_trigger_button, GestureTriggerButton::Right);
}

#[test]
fn confirm_edit_defaults_and_window_commands() {
    let mut state = state_with_apps(&[]);
    state.edit_directions = vec!["Left".to_string()];
    assert!(state.confirm_edit(0, String::new(), 0, String::new(), 2));
    state.edit_directions = vec!["Up".to_string()];
    assert!(state.confirm_edit(3, String::new(), 0, String::new(), 3));
    state.edit_directions = vec!["Down".to_string()];
    assert!(state.confirm_edit(2, "ignored".to_string(), 4, String::new(), 7));
    let pairs = state.gesture_pairs();
    let find = |key: &str| pairs.iter().find(|(k, _)| k == key).map(|(_, e)| e.action.clone()).unwrap();
    match find("X1_Left") {
        Action::Keyboard(kb) => assert_eq!(kb.keys, vec!["VK_UNKNOWN"]),
        _ => panic!("keyboard action expected"),
    }
    match find("X2_Up") {
        Action::Run(r) => {
            assert_eq!(r.command, "notepad.exe");
            assert!(r.args.is_none());
        }
        _ => panic!("run action expected"),
    }
    // an index out of range means the Middle button; command index 4 is ShowDesktop
    match find("M_Down") {
        Action::Window(w) => assert_eq!(w.command, WindowCommand::ShowDesktop),
        _ => panic!("window action expected"),
    }
}

#[test]
fn confirm_edit_needs_directions_and_a_known_type() {
    let mut state = state_with_apps(&[]);
    assert!(!state.confirm_edit(0, "VK_A".to_string(), 0, String::new(), 0));
    state.edit_directions = vec!["Up".to_string()];
    state.edit_original_name = Some("M_Down".to_string());
    // the old key is removed before the unknown type stops the edit
    assert!(!state.confirm_edit(9, String::new(), 0, String::new(), 0));
    assert_eq!(pair_keys(&state), vec!["M_Right", "M_Right → Down", "M_Up"]);
    assert_eq!(state.edit_original_name.as_deref(), Some("M_Down"));
}

#[test]
fn editing_moves_a_gesture_to_its_new_key() {
    let mut state = state_with_apps(&[]);
    // position 0 is "M_Down" (最小化, Minimize)
    let form = state.begin_edit_gesture(0).unwrap();
    assert_eq!(form.entry_name, "最小化");
    assert_eq!(form.direction_display, "M ↓");
    assert_eq!(form.action_type_index, 2);
    assert_eq!(form.action_detail, "Minimize");
    assert_eq!(form.window_command_index, 0);
    assert_eq!(form.trigger_button_index, 0);
    assert_eq!(form.shortcut_display, "");
    assert_eq!(state.edit_directions, vec!["Down"]);
    assert_eq!(state.edit_original_name.as_deref(), Some("M_Down"));
    assert!(state.confirm_edit(2, String::new(), 1, "大".to_string(), 1));
    assert_eq!(pair_keys(&state), vec!["M_Right", "M_Right → Down", "M_Up", "R_Down"]);
    assert!(state.begin_edit_gesture(4).is_none());
}

#[test]
fn editing_a_keyboard_gesture_shows_its_shortcut() {
    let mut state = state_with_apps(&[]);
    let form = state.begin_edit_gesture(1).unwrap();
    assert_eq!(form.action_type_index, 0);
    assert_eq!(form.action_detail, "VK_CONTROL+VK_L");
    assert_eq!(form.shortcut_display, "Ctrl + L");
    state.cancel_edit();
    assert!(state.edit_directions.is_empty());
    assert!(state.edit_original_name.is_none());
}

#[test]
fn action_type_and_detail_changes() {
    let mut state = state_with_apps(&[]);
    // position 3 is "M_Up" (Maximize): to a keyboard action holding the old detail
    assert!(state.change_action_type(3, 0));
    match &state.gesture_pairs()[3].1.action {
        Action::Keyboard(kb) => assert_eq!(kb.keys, vec!["Maximize"]),
        _ => panic!("keyboard action expected"),
    }
    assert!(state.change_action_detail(3, " VK_A +VK_B+".to_string()));
    match &state.gesture_pairs()[3].1.action {
        Action::Keyboard(kb) => assert_eq!(kb.keys, vec!["VK_A", "VK_B", ""]),
        _ => panic!("keyboard action expected"),
    }
    assert!(state.change_action_type(3, 1));
    match &state.gesture_pairs()[3].1.action {
        Action::Mouse(m) => {
            assert_eq!(m.button, MouseButton::Left);
            assert_eq!(m.action_type, MouseActionType::Click);
        }
        _ => panic!("mouse action expected"),
    }
    assert!(!state.change_action_type(3, 4));
    assert!(!state.change_action_type(-1, 0));
    assert!(!state.change_action_detail(4, "x".to_string()));
    assert!(state.change_action_type(3, 3));
    assert!(state.change_action_detail(3, "calc.exe".to_string()));
    match &state.gesture_pairs()[3].1.action {
        Action::Run(RunAction { command, args }) => {
            assert_eq!(command, "calc.exe");
            assert!(args.is_none());
        }
        _ => panic!("run action expected"),
    }
}

#[test]
fn remove_gesture_at_position() {
    let mut state = state_with_apps(&[]);
    assert!(state.remove_gesture_at(1));
    assert_eq!(pair_keys(&state), vec!["M_Down", "M_Right → Down", "M_Up"]);
    assert!(!state.remove_gesture_at(3));
    assert!(!state.remove_gesture_at(-3));
}

#[test]
fn capture_then_clear_directions() {
    let mut state = state_with_apps(&[]);
    let shown = state.apply_capture(CaptureResult {
        directions: vec!["Up".to_string(), "Left".to_string()],
        trigger_button: GestureTriggerButton::X2,
    });
    assert_eq!(shown, "X2 ↑←");
    assert_eq!(state.edit_trigger_button, GestureTriggerButton::X2);
    state.clear_directions();
    assert!(state.edit_directions.is_empty());
}

#[test]
fn application_display_names() {
    assert_eq!(display_name_from("global", None), "全局");
    assert_eq!(display_name_from("C:/apps/chrome.exe", Some("chrome.exe".to_string())), "chrome.exe");
    assert_eq!(display_name_from("..", None), "..");
    assert_eq!(DialogState::display_name_for_app("global"), "全局");
    assert_eq!(DialogState::display_name_for_app("chrome.exe"), "chrome.exe");
    assert_eq!(DialogState::display_name_for_app("tools/notepad.exe"), "notepad.exe");
    assert_eq!(DialogState::display_name_for_app("C:/dir/app.exe"), "app.exe");
    assert_eq!(DialogState::display_name_for_app("/usr/bin/code"), "code");
    assert_eq!(DialogState::display_name_for_app(""), "");
}

#[test]
fn gesture_keys_read_back() {
    let mut gesture = Gesture::new(GestureTriggerButton::X1);
    gesture.add_direction(GestureDir::UpLeft);
    gesture.add_direction(GestureDir::Down);
    let key = GestureIntentFinder::gesture_to_string(&gesture);
    assert_eq!(key, "X1_UpLeft → Down");
    let (button, dirs) = parse_gesture_key(&key);
    assert_eq!(button, GestureTriggerButton::X1);
    assert_eq!(dirs, vec!["UpLeft", "Down"]);
    let (button, dirs) = parse_gesture_key("Up → Left");
    assert_eq!(button, GestureTriggerButton::Middle);
    assert_eq!(dirs, vec!["Up", "Left"]);
    assert_eq!(gesture_name_to_mnemonic("M_Right → Down"), "M →↓");
    assert_eq!(gesture_name_to_mnemonic("Up → Sideways"), "↑Sideways");
}

#[test]
fn config_dialog_keeps_its_path() {
    let dialog = ConfigDialog::new("C:/cfg/config.json".to_string());
    assert_eq!(dialog.config_path(), "C:/cfg/config.json");
}

#[test]
fn gesture_and_app_rows() {
    let mut state = state_with_apps(&["tools/app.exe"]);
    state.set_gesture("R_Up".to_string(), entry("", keyboard(&["VK_CONTROL", "VK_F5"])));
    let rows = state.gesture_rows();
    assert_eq!(rows.len(), 5);
    assert_eq!(rows[0].name, "最小化");
    assert_eq!(rows[0].mnemonic, "M ↓");
    assert_eq!(rows[0].action_type, "窗口管理");
    assert_eq!(rows[0].action_params, "最小化");
    assert_eq!(rows[2].name, "锁屏");
    assert_eq!(rows[2].mnemonic, "M →↓");
    assert_eq!(rows[2].action_params, "Win + L");
    assert_eq!(rows[4].name, "R_Up");
    assert_eq!(rows[4].mnemonic, "R ↑");
    assert_eq!(rows[4].action_type, "键盘快捷键");
    assert_eq!(rows[4].action_params, "Ctrl + F5");
    let apps = state.app_rows();
    assert_eq!(apps.len(), 2);
    assert_eq!(apps[0].name, "global");
    assert_eq!(apps[0].display_name, "全局");
    assert!(apps[0].selected);
    assert_eq!(apps[1].name, "tools/app.exe");
    assert_eq!(apps[1].display_name, "app.exe");
    assert!(!apps[1].selected);
}

#[test]
fn selecting_a_gesture_shows_its_action() {
    let state = state_with_apps(&[]);
    assert_eq!(state.gesture_selection(1), Some((0, "VK_CONTROL+VK_L".to_string())));
    assert_eq!(state.gesture_selection(3), Some((2, "Maximize".to_string())));
    assert_eq!(state.gesture_selection(2), Some((0, "VK_LWIN+L".to_string())));
    assert_eq!(state.gesture_selection(4), None);
    assert_eq!(state.gesture_selection(-1), None);
}

#[test]
fn function_keys_are_shown_without_prefix() {
    assert_eq!(vk_to_display_name("VK_F1"), "F1");
    assert_eq!(vk_to_display_name("VK_F9"), "F9");
    assert_eq!(vk_to_display_name("VK_F12"), "F12");
    assert_eq!(vk_to_display_name("VK_F"), "F");
    assert_eq!(vk_to_display_name("VK_Fé"), "VK_Fé");
    assert_eq!(vk_to_display_name("VK_CONTROL"), "Ctrl");
    assert_eq!(vk_to_display_name("VK_A"), "A");
    assert_eq!(format_keys_display(&vec!["VK_MENU".to_string(), "VK_F4".to_string()]), "Alt + F4");
}

#[test]
fn default_gestures_include_lock_workstation() {
    let config = GestureConfig::default();
    let lock = config.global_gestures.get("M_Right → Down").unwrap();
    assert_eq!(lock.name, "锁屏");
    match &lock.action {
        Action::Keyboard(kb) => assert_eq!(kb.keys, vec!["VK_LWIN", "L"]),
        _ => panic!("keyboard action expected"),
    }
    assert_eq!(config.global_gestures.len(), 4);
}
