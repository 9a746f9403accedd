use rustgesture::config::{GestureConfig, Settings};
use rustgesture::gesture::{Gesture, GestureDir, GestureModifier, GestureTriggerButton, Point};
use rustgesture::intent::GestureIntentFinder;
use rustgesture::keys::map_key_to_vk;
use rustgesture::mouse::MouseEvent;
use rustgesture::overlay::parse_hex_color;
use rustgesture::parser::{calculate_4direction, direction4_of};
use rustgesture::recognizer::GestureRecognizer;
use rustgesture::tracker::{PathTracker, TrackerState};

#[test]
fn test_config_default() {
    let config = GestureConfig::default();
    assert_eq!(config.version, 1);
    assert!(!config.global_gestures.is_empty());
}

#[test]
fn test_gesture_creation() {
    let mut gesture = Gesture::new(GestureTriggerButton::Middle);
    gesture.add_direction(GestureDir::Right);
    gesture.add_direction(GestureDir::Down);

    assert_eq!(gesture.len(), 2);
    assert!(!gesture.is_empty());
}

#[test]
fn test_gesture_no_duplicate_directions() {
    let mut gesture = Gesture::new(GestureTriggerButton::Middle);
    gesture.add_direction(GestureDir::Right);
    gesture.add_direction(GestureDir::Right); // Duplicate

    assert_eq!(gesture.len(), 1);
}

#[test]
fn test_dir_name() {
    assert_eq!(GestureDir::Up.dir_name(), "Up");
    assert_eq!(GestureDir::DownRight.dir_name(), "DownRight");
    assert_eq!(GestureDir::Left.dir_name(), "Left");
}

#[test]
fn test_gesture_display() {
    let mut gesture = Gesture::new(GestureTriggerButton::Middle);
    gesture.add_direction(GestureDir::Right);
    gesture.add_direction(GestureDir::Down);

    assert_eq!(gesture.display_string(), "→ → ↓");
}

#[test]
fn test_intent_finder_creation() {
    let config = GestureConfig::default();
    let finder = GestureIntentFinder::new(config);
    assert!(!finder.global_cache().is_empty());
}

#[test]
fn test_gesture_to_string() {
    let mut gesture = Gesture::new(GestureTriggerButton::Middle);
    gesture.add_direction(GestureDir::Right);
    gesture.add_direction(GestureDir::Down);

    let gesture_str = GestureIntentFinder::gesture_to_string(&gesture);
    assert_eq!(gesture_str, "M_Right → Down");
}

#[test]
fn test_gesture_to_string_different_buttons() {
    let mut gesture_r = Gesture::new(GestureTriggerButton::Right);
    gesture_r.add_direction(GestureDir::Right);
    assert_eq!(GestureIntentFinder::gesture_to_string(&gesture_r), "R_Right");

    let mut gesture_x1 = Gesture::new(GestureTriggerButton::X1);
    gesture_x1.add_direction(GestureDir::Up);
    assert_eq!(GestureIntentFinder::gesture_to_string(&gesture_x1), "X1_Up");

    let mut gesture_x2 = Gesture::new(GestureTriggerButton::X2);
    gesture_x2.add_direction(GestureDir::Down);
    assert_eq!(GestureIntentFinder::gesture_to_string(&gesture_x2), "X2_Down");
}

#[test]
fn test_gesture_to_string_with_modifiers() {
    let mut gesture = Gesture::new(GestureTriggerButton::Middle);
    gesture.add_direction(GestureDir::Up);
    gesture.add_modifier(GestureModifier::WheelForward);

    let gesture_str = GestureIntentFinder::gesture_to_string_with_modifiers(&gesture);
    assert_eq!(gesture_str, "M_Up + WheelForward");
}

#[test]
fn test_find_with_button_matching() {
    let config = GestureConfig::default();
    let finder = GestureIntentFinder::new(config);

    // Default config has "M_Right" for Middle button
    let mut gesture_m = Gesture::new(GestureTriggerButton::Middle);
    gesture_m.add_direction(GestureDir::Right);
    assert!(finder.find(&gesture_m, None).is_some());

    // No "R_Right" in the default configuration
    let mut gesture_r = Gesture::new(GestureTriggerButton::Right);
    gesture_r.add_direction(GestureDir::Right);
    let result = finder.find(&gesture_r, None);
    assert!(
        result.is_none(),
        "Right button gesture should not match Middle button config"
    );
}

#[test]
fn test_disabled_apps() {
    let mut config = GestureConfig::default();
    config.disabled_apps.insert("notepad.exe".to_string());

    let finder = GestureIntentFinder::new(config);
    assert!(!finder.is_gesturing_enabled(Some("notepad.exe")));
    assert!(finder.is_gesturing_enabled(Some("chrome.exe")));
}

#[test]
fn test_4direction_right() {
    let vector = Point::new(10, 5); // Mostly right
    assert_eq!(calculate_4direction(&vector), GestureDir::Right);
}

#[test]
fn test_4direction_up() {
    let vector = Point::new(3, -10); // Mostly up (negative Y in screen coords)
    assert_eq!(calculate_4direction(&vector), GestureDir::Up);
}

#[test]
fn test_recognizer_creation() {
    let settings = Settings::default();
    let recognizer = GestureRecognizer::new(settings);
    assert_eq!(recognizer.state(), &TrackerState::Idle);
}

#[test]
fn test_recognizer_tracking() {
    let settings = Settings::default();
    let mut recognizer = GestureRecognizer::new(settings);

    // Simulate middle button down
    recognizer.handle_mouse_event(&MouseEvent::MiddleButtonDown(100, 100), &direction4_of);
    assert!(recognizer.is_capturing());

    // Simulate movement
    recognizer.handle_mouse_event(&MouseEvent::MouseMove(120, 100), &direction4_of);
    assert!(recognizer.is_tracking());
}

#[test]
fn test_tracker_creation() {
    let settings = Settings::default();
    let tracker = PathTracker::new(settings);
    assert_eq!(tracker.state(), &TrackerState::Idle);
}

#[test]
fn test_tracker_initial_move() {
    let settings = Settings { min_distance: 5, ..Default::default() };
    let mut tracker = PathTracker::new(settings);

    // Simulate mouse down
    tracker.on_mouse_down(100, 100, GestureTriggerButton::Middle, 0);

    // Small movement (should not start tracking)
    tracker.on_mouse_move(102, 102, 0, &direction4_of);
    assert_eq!(tracker.state(), &TrackerState::Capturing);

    // Large movement (should start tracking)
    tracker.on_mouse_move(110, 110, 0, &direction4_of);
    assert_eq!(tracker.state(), &TrackerState::Tracking);
}

#[test]
fn test_mouse_event_position() {
    let event = MouseEvent::MouseMove(100, 200);
    assert_eq!(event.position(), (100, 200));
}

#[test]
fn test_map_key_to_vk() {
    assert!(map_key_to_vk("CONTROL").is_ok());
    assert!(map_key_to_vk("SHIFT").is_ok());
    assert!(map_key_to_vk("UNKNOWN_KEY").is_err());
}

#[test]
fn test_parse_hex_color() {
    assert_eq!(parse_hex_color("#FF0000"), 0x000000FF);
    assert_eq!(parse_hex_color("#00FF00"), 0x0000FF00);
    assert_eq!(parse_hex_color("#0000FF"), 0x00FF0000);
    assert_eq!(parse_hex_color("#FFFFFF"), 0x00FFFFFF);
    assert_eq!(parse_hex_color("#0096FF"), 0x00FF9600);
}

#[test]
fn test_parse_hex_color_invalid() {
    assert_eq!(parse_hex_color("invalid"), 0x00FFFFFF);
    assert_eq!(parse_hex_color("#FFF"), 0x00FFFFFF);
}
