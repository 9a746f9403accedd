//! Decisions of the notification-area icon: what a click on the icon or a menu choice
//! does, and the tooltip for the enabled state.
use vstd::prelude::*;

verus! {

/// Message identifier the icon's notifications arrive with (the first user message
/// plus 100).
pub const TRAY_ICON_MESSAGE: u32 = 0x0400 + 100;

/// Mouse notifications of the icon.
pub const WM_LBUTTONDBLCLK: u32 = 0x0203;
pub const WM_RBUTTONUP: u32 = 0x0205;
pub const WM_CONTEXTMENU: u32 = 0x007B;

/// Identifiers of the context menu's items.
pub const MENU_TOGGLE: i32 = 1;
pub const MENU_EXIT: i32 = 2;
pub const MENU_SETTINGS: i32 = 3;

/// What the icon does in answer to a notification or a menu choice.
#[derive(Debug, Clone, Copy, PartialEq, Eq, Structural)]
pub enum TrayAction {
    Nothing,
    OpenSettings,
    ShowMenu,
    Toggle,
    Exit,
}

/// The answer to the icon notification `event`: a double click opens the settings, a
/// right click (or the context-menu key) shows the menu.
pub fn tray_event_action(event: u32) -> (r: TrayAction)
    ensures
        r == if event == WM_LBUTTONDBLCLK {
            TrayAction::OpenSettings
        } else if event == WM_RBUTTONUP || event == WM_CONTEXTMENU {
            TrayAction::ShowMenu
        } else {
            TrayAction::Nothing
        },
{
    if event == WM_LBUTTONDBLCLK {
        TrayAction::OpenSettings
    } else if event == WM_RBUTTONUP || event == WM_CONTEXTMENU {
        TrayAction::ShowMenu
    } else {
        TrayAction::Nothing
    }
}

/// The answer to the menu choice `id` (0 when the menu was dismissed).
pub fn menu_command_action(id: i32) -> (r: TrayAction)
    ensures
        r == if id == MENU_TOGGLE {
            TrayAction::Toggle
        } else if id == MENU_SETTINGS {
            TrayAction::OpenSettings
        } else if id == MENU_EXIT {
            TrayAction::Exit
        } else {
            TrayAction::Nothing
        },
{
    if id == MENU_TOGGLE {
        TrayAction::Toggle
    } else if id == MENU_SETTINGS {
        TrayAction::OpenSettings
    } else if id == MENU_EXIT {
        TrayAction::Exit
    } else {
        TrayAction::Nothing
    }
}

/// The icon's tooltip for the enabled state.
pub fn tooltip_text(enabled: bool) -> (r: &'static str)
    ensures
        r@ == if enabled {
            "RustGesture - Enabled"@
        } else {
            "RustGesture - Disabled"@
        },
{
    if enabled {
        "RustGesture - Enabled"
    } else {
        "RustGesture - Disabled"
    }
}

/// The enabled state after a toggle.
pub fn toggled(enabled: bool) -> (r: bool)
    ensures
        r == !enabled,
{
    !enabled
}

} // verus!
