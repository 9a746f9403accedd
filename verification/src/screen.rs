//! Decisions about windows and keys made from what the system reports.
use vstd::prelude::*;
use vstd::string::*;
use crate::text::str_eq;

verus! {

/// A window rectangle as left, top, right, bottom.
pub type WindowRect = (i32, i32, i32, i32);

/// Window classes that cover the desktop without being full-screen applications.
pub open spec fn is_shell_class(name: Seq<char>) -> bool {
    name == "WorkerW"@ || name == "CanvasWindow"@ || name == "ImmersiveLauncher"@ || name
        == "Windows.UI.Core.CoreWindow"@
}

/// A window is full-screen when its rectangle and the desktop's are both known and
/// equal, and it is not one of the shell's own windows (`class_name` is its class,
/// empty when unknown).
pub fn fullscreen_verdict(window: Option<WindowRect>, desktop: Option<WindowRect>, class_name: &str) -> (r: bool)
    ensures
        r == (window is Some && desktop is Some && window == desktop && !(class_name@.len() > 0
            && is_shell_class(class_name@))),
{
    let w = match window {
        Some(w) => w,
        None => return false,
    };
    let d = match desktop {
        Some(d) => d,
        None => return false,
    };
    if w.0 != d.0 || w.1 != d.1 || w.2 != d.2 || w.3 != d.3 {
        return false;
    }
    proof {
        reveal_strlit("WorkerW");
        reveal_strlit("CanvasWindow");
        reveal_strlit("ImmersiveLauncher");
        reveal_strlit("Windows.UI.Core.CoreWindow");
    }
    if class_name.unicode_len() > 0 {
        if str_eq(class_name, "WorkerW") || str_eq(class_name, "CanvasWindow") || str_eq(
            class_name,
            "ImmersiveLauncher",
        ) || str_eq(class_name, "Windows.UI.Core.CoreWindow") {
            return false;
        }
    }
    true
}

/// A key is down when the high bit of its reported state is set.
pub fn key_state_down(state: i16) -> (r: bool)
    ensures
        r == (state < 0),
{
    state < 0
}

/// The process of a window, where the system reported one (0 means none).
pub fn process_id_of(reported: u32) -> (r: Option<u32>)
    ensures
        r == if reported == 0 {
            None
        } else {
            Some(reported)
        },
{
    if reported == 0 {
        None
    } else {
        Some(reported)
    }
}

} // verus!
