//! Mouse gesture recognition: tracking, direction parsing, intent matching and
//! configuration logic.
pub mod text;
pub mod gesture;
pub mod parser;
pub mod mouse;
pub mod strmap;
pub mod config;
pub mod clock;
pub mod tracker;
pub mod recognizer;
pub mod intent;
pub mod capture;
pub mod overlay;
pub mod keys;
pub mod dialog;
pub mod dialog_state;
pub mod shortcut;
pub mod input;
pub mod tray;
pub mod manager;
pub mod message_loop;
pub mod dispatch;
pub mod screen;
