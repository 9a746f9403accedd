//! Capture of a keyboard shortcut in the settings dialog: which key went down since
//! the last scan, and the texts shown and stored for the shortcut.
use vstd::prelude::*;
use vstd::string::*;
use crate::dialog::{vk_info, vk_code_to_info};
use crate::text::{join, views, join_strings};

verus! {

/// The escape key, which cancels the capture.
pub const VK_ESCAPE_CODE: i32 = 0x1B;

/// The modifier keys the scan does not report as shortcut keys: Shift, Ctrl and Alt
/// (generic, left and right, except the right Alt) and both Windows keys.
pub open spec fn is_modifier_code(vk: int) -> bool {
    vk == 0x10 || vk == 0xA0 || vk == 0xA1 || vk == 0x11 || vk == 0xA2 || vk == 0xA3 || vk
        == 0x12 || vk == 0xA4 || vk == 0x5B || vk == 0x5C
}

/// Whether `vk` is one of the modifier keys the scan skips.
pub fn is_modifier(vk: usize) -> (r: bool)
    ensures
        r == is_modifier_code(vk as int),
{
    vk == 0x10 || vk == 0xA0 || vk == 0xA1 || vk == 0x11 || vk == 0xA2 || vk == 0xA3 || vk
        == 0x12 || vk == 0xA4 || vk == 0x5B || vk == 0x5C
}

/// Key `vk` is a shortcut key (1 to 254, no modifier) that is down now and was not
/// down at the previous scan.
pub open spec fn newly_pressed(prev: Seq<bool>, down: Seq<bool>, vk: int) -> bool {
    1 <= vk <= 254 && !is_modifier_code(vk) && down[vk] && !prev[vk]
}

/// What one scan of the keyboard found.
#[derive(Debug, Clone, Copy, PartialEq, Eq, Structural)]
pub enum ShortcutScan {
    /// No shortcut key went down.
    Nothing,
    /// Escape went down: the capture is cancelled.
    Cancelled,
    /// This key went down.
    Pressed(i32),
}

/// Forgets all remembered key states.
fn clear_all(prev: &mut Vec<bool>)
    ensures
        final(prev)@.len() == old(prev)@.len(),
        forall|k: int| 0 <= k < final(prev)@.len() ==> !final(prev)@[k],
{
    let mut i: usize = 0;
    while i < prev.len()
        invariant
            i <= prev@.len(),
            prev@.len() == old(prev)@.len(),
            forall|k: int| 0 <= k < i ==> !prev@[k],
        decreases prev@.len() - i,
    {
        prev.set(i, false);
        i = i + 1;
    }
}

/// One scan of the keyboard: `down[vk]` tells whether key `vk` is down now and
/// `prev[vk]` whether it was at the previous scan. The lowest key that went down is
/// reported (Escape cancels) and all remembered states are cleared; when none went
/// down, the states of keys 1 to 254 are remembered for the next scan.
pub fn scan_shortcut_keys(prev: &mut Vec<bool>, down: &Vec<bool>) -> (r: ShortcutScan)
    requires
        old(prev)@.len() == 256,
        down@.len() == 256,
    ensures
        final(prev)@.len() == 256,
        (r is Nothing) == (forall|vk: int| !newly_pressed(old(prev)@, down@, vk)),
        r is Cancelled ==> newly_pressed(old(prev)@, down@, VK_ESCAPE_CODE as int) && forall|
            j: int,
        | 0 <= j < VK_ESCAPE_CODE ==> !newly_pressed(old(prev)@, down@, j),
        r matches ShortcutScan::Pressed(vk) ==> vk != VK_ESCAPE_CODE && newly_pressed(
            old(prev)@,
            down@,
            vk as int,
        ) && forall|j: int| 0 <= j < vk ==> !newly_pressed(old(prev)@, down@, j),
        r !is Nothing ==> forall|i: int| 0 <= i < 256 ==> !final(prev)@[i],
        r is Nothing ==> forall|i: int| 1 <= i <= 254 ==> final(prev)@[i] == down@[i],
        r is Nothing ==> final(prev)@[0] == old(prev)@[0] && final(prev)@[255] == old(prev)@[255],
{
    let ghost p0 = prev@;
    let mut vk: usize = 1;
    while vk <= 254
        invariant
            1 <= vk <= 255,
            p0.len() == 256,
            prev@.len() == 256,
            down@.len() == 256,
            forall|j: int| 0 <= j < vk ==> !#[trigger] newly_pressed(p0, down@, j),
            forall|i: int| 1 <= i < vk && !is_modifier_code(i) ==> prev@[i] == down@[i],
            p0 == old(prev)@,
            forall|i: int|
                0 <= i < 256 && (i >= vk || i == 0 || is_modifier_code(i)) ==> #[trigger] prev@[i]
                    == p0[i],
        decreases 255 - vk,
    {
        if !is_modifier(vk) {
            let is_down = down[vk];
            let was_down = prev[vk];
            prev.set(vk, is_down);
            if is_down && !was_down {
                proof {
                    assert(newly_pressed(old(prev)@, down@, vk as int));
                }
                clear_all(prev);
                if vk == 0x1B {
                    return ShortcutScan::Cancelled;
                }
                return ShortcutScan::Pressed(vk as i32);
            }
        }
        vk = vk + 1;
    }
    let mut k: usize = 1;
    while k <= 254
        invariant
            1 <= k <= 255,
            prev@.len() == 256,
            down@.len() == 256,
            forall|i: int| 1 <= i <= 254 && !is_modifier_code(i) ==> prev@[i] == down@[i],
            forall|i: int| 1 <= i < k && is_modifier_code(i) ==> prev@[i] == down@[i],
            p0.len() == 256,
            prev@[0] == p0[0],
            prev@[255] == p0[255],
        decreases 255 - k,
    {
        if is_modifier(k) {
            prev.set(k, down[k]);
        }
        k = k + 1;
    }
    proof {
        assert forall|i: int| 1 <= i <= 254 implies prev@[i] == down@[i] by {
            if is_modifier_code(i) {
                assert(1 <= i < k);
            }
        }
        assert forall|j: int| !newly_pressed(old(prev)@, down@, j) by {
            if 1 <= j <= 254 {
                assert(!newly_pressed(p0, down@, j));
            }
        }
    }
    ShortcutScan::Nothing
}

/// The names of the held modifiers, in the order Win, Ctrl, Alt, Shift.
pub open spec fn modifier_names(win: bool, ctrl: bool, alt: bool, shift: bool) -> Seq<Seq<char>> {
    (if win {
        seq!["Win"@]
    } else {
        seq![]
    }) + (if ctrl {
        seq!["Ctrl"@]
    } else {
        seq![]
    }) + (if alt {
        seq!["Alt"@]
    } else {
        seq![]
    }) + (if shift {
        seq!["Shift"@]
    } else {
        seq![]
    })
}

/// The key names of the held modifiers, in the order Win, Ctrl, Alt, Shift.
pub open spec fn modifier_codes(win: bool, ctrl: bool, alt: bool, shift: bool) -> Seq<Seq<char>> {
    (if win {
        seq!["VK_LWIN"@]
    } else {
        seq![]
    }) + (if ctrl {
        seq!["VK_CONTROL"@]
    } else {
        seq![]
    }) + (if alt {
        seq!["VK_MENU"@]
    } else {
        seq![]
    }) + (if shift {
        seq!["VK_SHIFT"@]
    } else {
        seq![]
    })
}

/// The display of a shortcut: the held modifiers and the key, joined by " + ".
pub open spec fn shortcut_display(win: bool, ctrl: bool, alt: bool, shift: bool, vk: i32) -> Seq<char> {
    let parts = modifier_names(win, ctrl, alt, shift);
    if parts.len() == 0 {
        vk_info(vk).0
    } else {
        join(parts, " + "@) + " + "@ + vk_info(vk).0
    }
}

/// The stored form of a shortcut: the key names of the modifiers and the key, joined by "+".
pub open spec fn shortcut_keys(win: bool, ctrl: bool, alt: bool, shift: bool, vk: i32) -> Seq<char> {
    join(modifier_codes(win, ctrl, alt, shift).push(vk_info(vk).1), "+"@)
}

/// Pushes `s` when `flag` holds.
fn push_if(v: &mut Vec<String>, flag: bool, s: &str)
    ensures
        views(final(v)@) == if flag {
            views(old(v)@).push(s@)
        } else {
            views(old(v)@)
        },
{
    if flag {
        let ghost before = views(v@);
        let t = String::from_str(s);
        v.push(t);
        proof {
            assert(views(v@) =~= before.push(s@));
        }
    }
}

/// The display text and the stored key text of the shortcut of key `vk` with the
/// given modifiers held.
pub fn shortcut_text(win: bool, ctrl: bool, alt: bool, shift: bool, vk: i32) -> (r: (String, String))
    ensures
        r.0@ == shortcut_display(win, ctrl, alt, shift, vk),
        r.1@ == shortcut_keys(win, ctrl, alt, shift, vk),
{
    let (key_display, key_vk) = vk_code_to_info(vk);
    let mut names: Vec<String> = Vec::new();
    let mut codes: Vec<String> = Vec::new();
    push_if(&mut names, win, "Win");
    push_if(&mut codes, win, "VK_LWIN");
    push_if(&mut names, ctrl, "Ctrl");
    push_if(&mut codes, ctrl, "VK_CONTROL");
    push_if(&mut names, alt, "Alt");
    push_if(&mut codes, alt, "VK_MENU");
    push_if(&mut names, shift, "Shift");
    push_if(&mut codes, shift, "VK_SHIFT");
    proof {
        assert(views(names@) =~= modifier_names(win, ctrl, alt, shift));
        assert(views(codes@) =~= modifier_codes(win, ctrl, alt, shift));
    }
    let display = if names.len() == 0 {
        key_display
    } else {
        let mut d = join_strings(&names, " + ");
        d.append(" + ");
        d.append(key_display.as_str());
        d
    };
    let ghost before = views(codes@);
    codes.push(key_vk);
    proof {
        assert(views(codes@) =~= before.push(vk_info(vk).1));
    }
    let stored = join_strings(&codes, "+");
    (display, stored)
}

} // verus!
