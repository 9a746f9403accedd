use rustgesture::config::Settings;
use rustgesture::keys::map_key_to_vk;
use rustgesture::parser::direction4_of;
use rustgesture::recognizer::GestureRecognizer;
use rustgesture::tracker::{PathTracker, TrackerState};
use rustgesture::config::{
    Action, GestureConfig, KeyboardAction, MouseAction, MouseActionType, MouseButton, RunAction,
    WindowAction, WindowCommand,
};
use rustgesture::dispatch::{action_for_event, admits_event, gesture_press, may_start_gesture};
use rustgesture::config::GestureEntry;
use rustgesture::strmap::StrMap;
use rustgesture::gesture::{Gesture, GestureDir, GestureTriggerButton};
use rustgesture::input::{
    mouse_click_flags, plan_action, plan_keyboard, plan_mouse, plan_run, plan_window_command,
    InputStep,
};
use rustgesture::intent::GestureIntentFinder;
use rustgesture::keys::KeyMapError;
use rustgesture::manager::ConfigManager;
use rustgesture::message_loop::MessageLoop;
use rustgesture::mouse::{convert_mouse_event, HookGate, MouseEvent, SIMULATED_EVENT_TAG};
use rustgesture::overlay::{label_rects, FadeTick, OverlayState, TrailShape};
use rustgesture::recognizer::GestureRecognizerEvent;
use rustgesture::screen::{fullscreen_verdict, key_state_down, process_id_of};
use rustgesture::shortcut::{scan_shortcut_keys, shortcut_text, ShortcutScan};
use rustgesture::text::{sort_strings, split_whitespace_str};
use rustgesture::tray::{menu_command_action, tooltip_text, toggled, tray_event_action, TrayAction};

fn key(step: &InputStep) -> (u16, bool) {
    match step {
        InputStep::Key { vk, down } => (*vk, *down),
        _ => panic!("key step expected"),
    }
}

#[test]
fn shortcut_keys_are_released_in_reverse_order() {
    let action = KeyboardAction { keys: vec!["ctrl".to_string(), "shift".to_string(), "s".to_string()] };
    let (steps, result) = plan_keyboard(&action);
    assert!(result.is_ok());
    assert_eq!(steps.len(), 7);
    assert_eq!(key(&steps[0]), (0x11, true));
    assert_eq!(key(&steps[1]), (0x10, true));
    assert_eq!(key(&steps[2]), (0x53, true));
    assert!(matches!(steps[3], InputStep::Pause { millis: 10 }));
    assert_eq!(key(&steps[4]), (0x53, false));
    assert_eq!(key(&steps[5]), (0x10, false));
    assert_eq!(key(&steps[6]), (0x11, false));
}

#[test]
fn an_unknown_key_stops_the_shortcut() {
    let action = KeyboardAction { keys: vec!["VK_F5".to_string(), "BOGUS".to_string(), "A".to_string()] };
    let (steps, result) = plan_keyboard(&action);
    assert_eq!(steps.len(), 1);
    assert_eq!(key(&steps[0]), (0x74, true));
    match result {
        Err(KeyMapError::UnknownKey(k)) => assert_eq!(k, "BOGUS"),
        Ok(()) => panic!("error expected"),
    }
    let (steps, result) = plan_keyboard(&KeyboardAction { keys: vec![] });
    assert!(steps.is_empty());
    assert!(result.is_ok());
    // a number is taken as the key code itself
    let (steps, result) = plan_keyboard(&KeyboardAction { keys: vec!["65".to_string()] });
    assert!(result.is_ok());
    assert_eq!(key(&steps[0]), (65, true));
}

#[test]
fn mouse_clicks_and_double_clicks() {
    assert_eq!(mouse_click_flags(&MouseButton::Left), (0x2, 0x4, 0));
    assert_eq!(mouse_click_flags(&MouseButton::Right), (0x8, 0x10, 0));
    assert_eq!(mouse_click_flags(&MouseButton::Middle), (0x20, 0x40, 0));
    assert_eq!(mouse_click_flags(&MouseButton::X1), (0x80, 0x100, 1));
    assert_eq!(mouse_click_flags(&MouseButton::X2), (0x80, 0x100, 2));
    let steps = plan_mouse(&MouseAction { button: MouseButton::X2, action_type: MouseActionType::DoubleClick });
    assert_eq!(steps.len(), 3);
    assert!(matches!(steps[0], InputStep::MouseClick { down_flags: 0x80, up_flags: 0x100, data: 2 }));
    assert!(matches!(steps[1], InputStep::Pause { millis: 50 }));
    assert!(matches!(steps[2], InputStep::MouseClick { down_flags: 0x80, up_flags: 0x100, data: 2 }));
    let steps = plan_mouse(&MouseAction { button: MouseButton::Left, action_type: MouseActionType::Click });
    assert_eq!(steps.len(), 1);
}

#[test]
fn window_commands() {
    let plan = |c| plan_window_command(&WindowAction { command: c });
    assert!(matches!(plan(WindowCommand::Minimize)[..], [InputStep::ShowWindow { show: 2 }]));
    assert!(matches!(plan(WindowCommand::Maximize)[..], [InputStep::ShowWindow { show: 3 }]));
    assert!(matches!(plan(WindowCommand::Restore)[..], [InputStep::ShowWindow { show: 9 }]));
    assert!(matches!(plan(WindowCommand::Close)[..], [InputStep::CloseWindow]));
    let desktop = plan(WindowCommand::ShowDesktop);
    let keys: Vec<(u16, bool)> = desktop.iter().map(key).collect();
    assert_eq!(keys, vec![(0x5B, true), (0x44, true), (0x44, false), (0x5B, false)]);
}

#[test]
fn run_arguments_are_split_on_whitespace() {
    let step = plan_run(&RunAction { command: "code".to_string(), args: Some("  -n\tfile.txt  x ".to_string()) });
    match step {
        InputStep::Run { program, args } => {
            assert_eq!(program, "code");
            assert_eq!(args, vec!["-n", "file.txt", "x"]);
        }
        _ => panic!("run step expected"),
    }
    assert_eq!(split_whitespace_str(""), Vec::<String>::new());
    assert_eq!(split_whitespace_str("   "), Vec::<String>::new());
    let (steps, result) = plan_action(&Action::Run(RunAction { command: "calc".to_string(), args: None }));
    assert!(result.is_ok());
    assert!(matches!(&steps[..], [InputStep::Run { .. }]));
}

#[test]
fn hook_messages_are_decoded() {
    assert_eq!(convert_mouse_event(0x0200, 1, 2, 0), MouseEvent::MouseMove(1, 2));
    assert_eq!(convert_mouse_event(0x0204, 1, 2, 0), MouseEvent::RightButtonDown(1, 2));
    assert_eq!(convert_mouse_event(0x0208, 1, 2, 0), MouseEvent::MiddleButtonUp(1, 2));
    assert_eq!(convert_mouse_event(0x020B, 5, 6, 0x0002_0000), MouseEvent::XButtonDown(5, 6, 2));
    assert_eq!(convert_mouse_event(0x020A, 0, 0, 0x0078_0000), MouseEvent::MouseWheel(0, 0, 120));
    assert_eq!(convert_mouse_event(0x020A, 0, 0, 0xFF88_0000), MouseEvent::MouseWheel(0, 0, -120));
    assert_eq!(convert_mouse_event(0x020E, 0, 0, 0xFF88_0000), MouseEvent::MouseHWheel(0, 0, -120));
    assert_eq!(convert_mouse_event(0x9999, 3, 4, 0), MouseEvent::MouseMove(3, 4));
}

#[test]
fn hook_passes_every_fifth_move_while_a_button_is_held() {
    let mut gate = HookGate::new();
    assert!(!gate.passes(0, 0x0200, 0));
    assert!(gate.passes(0, 0x0207, 0));
    assert!(!gate.passes(0, 0x0207, SIMULATED_EVENT_TAG));
    assert!(!gate.passes(1, 0x0207, 0));
    assert!(gate.on_mouse_event(true, &MouseEvent::MiddleButtonDown(0, 0)));
    assert!(gate.processing);
    let passed: Vec<bool> = (0..10).map(|_| gate.passes(0, 0x0200, 0)).collect();
    assert_eq!(passed, vec![true, false, false, false, false, true, false, false, false, false]);
    assert!(gate.on_mouse_event(true, &MouseEvent::XButtonUp(0, 0, 1)));
    assert!(!gate.processing);
    assert!(!gate.on_mouse_event(false, &MouseEvent::RightButtonDown(0, 0)));
    assert!(!gate.processing);
}

#[test]
fn overlay_fade_runs_to_the_end() {
    let mut s = OverlayState::on_screen(0, 0, 1920, 1080);
    s.start_trail(0, 0, 1920, 1080, (10, 10), 0x00FF9600, 3);
    s.trail_point((10, 10));
    s.trail_point((12, 10));
    s.trail_point((12, 10));
    assert_eq!(s.points, vec![(10, 10), (12, 10)]);
    assert_eq!(s.trail_shape(), TrailShape::Polyline);
    s.show_name("test".to_string());
    assert_eq!(s.name, Some(("test".to_string(), 960, 1020)));
    assert_eq!(s.timer_tick(), FadeTick::Ignored);
    assert!(s.fade_out());
    let mut ticks = Vec::new();
    loop {
        let t = s.timer_tick();
        ticks.push(t);
        if t == FadeTick::Finished {
            break;
        }
    }
    // two waiting ticks, then 255 → 223 → ... → 31 → 0 in steps of 32
    assert_eq!(ticks.len(), 2 + 8);
    assert!(s.points.is_empty());
    assert!(s.name.is_none());
    assert_eq!(s.fade_alpha, 255);
    assert!(!s.fading);
    assert_eq!(s.trail_shape(), TrailShape::Empty);
}

#[test]
fn overlay_commands() {
    let mut s = OverlayState::default();
    assert_eq!(s.fade_alpha, 0);
    assert!(!s.fade_out());
    s.start_trail(-1920, 0, 1920, 1200, (5, 6), 0x0066CC00, 4);
    assert_eq!(s.trail_shape(), TrailShape::Dot { x: 5, y: 6, radius: 4 });
    assert_eq!((s.origin_x, s.screen_w), (-1920, 1920));
    s.hide_name();
    s.clear();
    assert!(s.points.is_empty());
    assert_eq!(s.fade_alpha, 255);
    assert_eq!(label_rects(100, 200, 41, 17), ((72, 164, 128, 196), (80, 172, 120, 188)));
}

#[test]
fn a_single_point_dot_takes_the_width_as_i32() {
    let mut s = OverlayState::default();
    s.start_trail(0, 0, 800, 600, (5, 6), 0x0066CC00, u32::MAX);
    assert_eq!(s.trail_shape(), TrailShape::Dot { x: 5, y: 6, radius: -1 });
    s.width = 0x8000_0000;
    assert_eq!(s.trail_shape(), TrailShape::Dot { x: 5, y: 6, radius: i32::MIN });
}

#[test]
fn shortcut_scan_reports_the_first_new_key() {
    let mut prev = vec![false; 256];
    let mut down = vec![false; 256];
    down[0x11] = true; // Ctrl is a modifier: not reported
    assert_eq!(scan_shortcut_keys(&mut prev, &down), ShortcutScan::Nothing);
    assert!(prev[0x11]);
    down[0x41] = true;
    down[0x30] = true;
    assert_eq!(scan_shortcut_keys(&mut prev, &down), ShortcutScan::Pressed(0x30));
    assert!(prev.iter().all(|p| !p));
    let mut prev = vec![false; 256];
    prev[0x30] = true;
    let mut down = vec![false; 256];
    down[0x30] = true;
    down[0x1B] = true;
    assert_eq!(scan_shortcut_keys(&mut prev, &down), ShortcutScan::Cancelled);
    let mut prev = vec![false; 256];
    let mut down = vec![false; 256];
    down[0xA5] = true; // right Alt is reported as a key
    assert_eq!(scan_shortcut_keys(&mut prev, &down), ShortcutScan::Pressed(0xA5));
}

#[test]
fn shortcut_texts() {
    assert_eq!(shortcut_text(false, true, false, true, 0x53), ("Ctrl + Shift + S".to_string(), "VK_CONTROL+VK_SHIFT+VK_S".to_string()));
    assert_eq!(shortcut_text(false, false, false, false, 0x70), ("F1".to_string(), "VK_F1".to_string()));
    assert_eq!(shortcut_text(true, false, true, false, 0x65), ("Win + Alt + Num5".to_string(), "VK_LWIN+VK_MENU+VK_NUMPAD5".to_string()));
    assert_eq!(shortcut_text(false, false, false, false, 0xBA), ("0xBA".to_string(), "VK_0xBA".to_string()));
}

#[test]
fn tray_answers() {
    assert_eq!(tray_event_action(0x0203), TrayAction::OpenSettings);
    assert_eq!(tray_event_action(0x0205), TrayAction::ShowMenu);
    assert_eq!(tray_event_action(0x007B), TrayAction::ShowMenu);
    assert_eq!(tray_event_action(0x0201), TrayAction::Nothing);
    assert_eq!(menu_command_action(1), TrayAction::Toggle);
    assert_eq!(menu_command_action(2), TrayAction::Exit);
    assert_eq!(menu_command_action(3), TrayAction::OpenSettings);
    assert_eq!(menu_command_action(0), TrayAction::Nothing);
    assert_eq!(tooltip_text(true), "RustGesture - Enabled");
    assert_eq!(tooltip_text(false), "RustGesture - Disabled");
    assert!(!toggled(true));
    assert!(toggled(toggled(true)));
}

#[test]
fn completed_gestures_run_their_action() {
    let finder = GestureIntentFinder::new(GestureConfig::default());
    let mut g = Gesture::new(GestureTriggerButton::Middle);
    g.add_direction(GestureDir::Down);
    match action_for_event(&finder, &GestureRecognizerEvent::GestureCompleted(g), None) {
        Some(Action::Window(w)) => assert_eq!(w.command, WindowCommand::Minimize),
        _ => panic!("minimize expected"),
    }
    let mut g = Gesture::new(GestureTriggerButton::Right);
    g.add_direction(GestureDir::Down);
    assert!(action_for_event(&finder, &GestureRecognizerEvent::GestureCompleted(g), None).is_none());
    assert!(action_for_event(&finder, &GestureRecognizerEvent::GestureCancelled, None).is_none());
}

#[test]
fn manager_and_message_loop() {
    let mut m = ConfigManager::from_parts("a/config.json".to_string(), "a/config.json.backup".to_string(), GestureConfig::default());
    assert_eq!(m.config_path(), "a/config.json");
    assert_eq!(m.backup_path(), "a/config.json.backup");
    assert!(m.has_known_version());
    m.config_mut().version = 2;
    assert_eq!(m.config().version, 2);
    assert!(!m.has_known_version());
    m.reload(GestureConfig::default());
    assert_eq!(m.config().version, 1);
    let mut l = MessageLoop::new();
    assert!(l.is_running());
    l.run();
    assert!(l.is_running());
    l.stop();
    assert!(!l.is_running());
}

#[test]
fn screen_decisions() {
    let r = Some((0, 0, 1920, 1080));
    assert!(fullscreen_verdict(r, r, "Chrome_WidgetWin_1"));
    assert!(fullscreen_verdict(r, r, ""));
    assert!(!fullscreen_verdict(r, r, "WorkerW"));
    assert!(!fullscreen_verdict(Some((0, 0, 800, 600)), r, "X"));
    assert!(!fullscreen_verdict(None, r, "X"));
    assert!(key_state_down(i16::MIN));
    assert!(!key_state_down(1));
    assert_eq!(process_id_of(0), None);
    assert_eq!(process_id_of(42), Some(42));
}

#[test]
fn strings_sort_by_code_points() {
    let v: Vec<String> = vec!["b".into(), "B".into(), "ab".into(), "a".into()];
    assert_eq!(sort_strings(&v), vec!["B", "a", "ab", "b"]);
}


#[test]
fn release_before_minimum_distance_records_nothing() {
    let mut t = PathTracker::new(Settings::default());
    t.handle_mouse_event_at(&MouseEvent::MiddleButtonDown(100, 100), 0, &direction4_of);
    assert_eq!(t.state(), &TrackerState::Capturing);
    t.handle_mouse_event_at(&MouseEvent::MiddleButtonUp(101, 100), 5, &direction4_of);
    assert_eq!(t.state(), &TrackerState::Idle);
    assert!(t.current_gesture().is_none());
    // a later long move starts nothing
    t.handle_mouse_event_at(&MouseEvent::MouseMove(300, 100), 10, &direction4_of);
    assert_eq!(t.state(), &TrackerState::Idle);
    assert!(t.take_events().is_empty());
}

#[test]
fn gestures_stop_at_the_step_limit() {
    let mut r = GestureRecognizer::new(Settings::default());
    assert_eq!(r.max_gesture_steps(), 12);
    r.set_max_gesture_steps(2);
    r.handle_mouse_event_at(&MouseEvent::MiddleButtonDown(0, 0), 0, &direction4_of);
    // right, down, left, up: only the first two are kept
    for (i, (x, y)) in [(50, 0), (50, 50), (0, 50), (0, 0)].iter().enumerate() {
        r.handle_mouse_event_at(&MouseEvent::MouseMove(*x, *y), i as u64 + 1, &direction4_of);
    }
    assert_eq!(r.current_gesture().unwrap().len(), 2);
    r.handle_mouse_event_at(&MouseEvent::MiddleButtonUp(0, 0), 10, &direction4_of);
    let completed: Vec<usize> = r
        .take_events()
        .into_iter()
        .filter_map(|e| match e {
            GestureRecognizerEvent::GestureCompleted(g) => Some(g.len()),
            _ => None,
        })
        .collect();
    assert_eq!(completed, vec![2]);
    let mut r = GestureRecognizer::new(Settings::default());
    r.set_max_gesture_steps(0);
    r.handle_mouse_event_at(&MouseEvent::MiddleButtonDown(0, 0), 0, &direction4_of);
    r.handle_mouse_event_at(&MouseEvent::MouseMove(100, 0), 1, &direction4_of);
    assert!(r.is_tracking());
    assert_eq!(r.current_gesture().unwrap().len(), 0);
}

#[test]
fn application_gestures_take_precedence_over_global_ones() {
    let mut config = GestureConfig::default();
    let mut chrome = StrMap::new();
    chrome.insert(
        "M_Down".to_string(),
        GestureEntry { name: "max".to_string(), action: Action::Window(WindowAction { command: WindowCommand::Maximize }) },
    );
    config.app_gestures.insert("chrome.exe".to_string(), chrome);
    let finder = GestureIntentFinder::new(config);
    let mut g = Gesture::new(GestureTriggerButton::Middle);
    g.add_direction(GestureDir::Down);
    let completed = GestureRecognizerEvent::GestureCompleted(g);
    match action_for_event(&finder, &completed, Some("chrome.exe")) {
        Some(Action::Window(w)) => assert_eq!(w.command, WindowCommand::Maximize),
        _ => panic!("maximize expected"),
    }
    match action_for_event(&finder, &completed, Some("notepad.exe")) {
        Some(Action::Window(w)) => assert_eq!(w.command, WindowCommand::Minimize),
        _ => panic!("minimize expected"),
    }
    match action_for_event(&finder, &completed, None) {
        Some(Action::Window(w)) => assert_eq!(w.command, WindowCommand::Minimize),
        _ => panic!("minimize expected"),
    }
}

#[test]
fn no_gesture_starts_in_disabled_or_fullscreen_applications() {
    let mut config = GestureConfig::default();
    config.disabled_apps.insert("notepad.exe".to_string());
    let finder = GestureIntentFinder::new(config);
    assert!(!may_start_gesture(&finder, Some("notepad.exe"), false));
    assert!(may_start_gesture(&finder, Some("chrome.exe"), false));
    assert!(may_start_gesture(&finder, None, false));
    assert!(!may_start_gesture(&finder, Some("chrome.exe"), true));
    let mut config = GestureConfig::default();
    config.settings.disable_in_fullscreen = false;
    let finder = GestureIntentFinder::new(config);
    assert!(may_start_gesture(&finder, Some("chrome.exe"), true));

    let press = MouseEvent::MiddleButtonDown(0, 0);
    assert!(gesture_press(&press));
    assert!(gesture_press(&MouseEvent::XButtonDown(0, 0, 2)));
    assert!(!gesture_press(&MouseEvent::XButtonDown(0, 0, 3)));
    assert!(!gesture_press(&MouseEvent::LeftButtonDown(0, 0)));
    assert!(!admits_event(true, false, &press));
    assert!(admits_event(true, true, &press));
    assert!(admits_event(false, false, &press));
    assert!(admits_event(true, false, &MouseEvent::MouseMove(5, 5)));
    // with the press held back, the moves and the release that follow start nothing
    let mut r = GestureRecognizer::new(Settings::default());
    for event in [press, MouseEvent::MouseMove(100, 0), MouseEvent::MiddleButtonUp(100, 0)] {
        if admits_event(!r.is_tracking() && !r.is_capturing(), false, &event) {
            r.handle_mouse_event_at(&event, 1, &direction4_of);
        }
    }
    assert_eq!(r.state(), &TrackerState::Idle);
    assert!(r.take_events().is_empty());
}

#[test]
fn lowering_the_step_limit_cuts_the_gesture_under_way() {
    let mut r = GestureRecognizer::new(Settings::default());
    r.handle_mouse_event_at(&MouseEvent::MiddleButtonDown(0, 0), 0, &direction4_of);
    for (i, (x, y)) in [(50, 0), (50, 50), (0, 50)].iter().enumerate() {
        r.handle_mouse_event_at(&MouseEvent::MouseMove(*x, *y), i as u64 + 1, &direction4_of);
    }
    assert_eq!(r.current_gesture().unwrap().len(), 3);
    r.set_max_gesture_steps(1);
    assert_eq!(r.current_gesture().unwrap().directions, vec![GestureDir::Right]);
    r.handle_mouse_event_at(&MouseEvent::MouseMove(0, 0), 5, &direction4_of);
    assert_eq!(r.current_gesture().unwrap().len(), 1);
    r.set_max_gesture_steps(5);
    r.handle_mouse_event_at(&MouseEvent::MouseMove(0, 50), 6, &direction4_of);
    assert_eq!(r.current_gesture().unwrap().directions, vec![GestureDir::Right, GestureDir::Down]);
}

#[test]
fn small_moves_do_not_put_off_the_timeout() {
    let mut t = PathTracker::new(Settings::default());
    t.handle_mouse_event_at(&MouseEvent::MiddleButtonDown(0, 0), 0, &direction4_of);
    t.handle_mouse_event_at(&MouseEvent::MouseMove(30, 0), 1, &direction4_of); // a stroke
    t.handle_mouse_event_at(&MouseEvent::MouseMove(31, 0), 400, &direction4_of); // too small
    assert!(!t.check_timeout_at(501));
    assert!(t.check_timeout_at(502));
    assert_eq!(t.state(), &TrackerState::Idle);
}

#[test]
fn key_names_ignore_ascii_case() {
    assert_eq!(map_key_to_vk("vk_l").ok(), Some(0x4C));
    assert_eq!(map_key_to_vk("VK_L").ok(), Some(0x4C));
    assert_eq!(map_key_to_vk("Vk_F10").ok(), Some(0x79));
}
