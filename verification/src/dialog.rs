//! Logic of the settings dialog: display texts, gesture-key parsing and the
//! conversions between actions and the dialog's controls.
use vstd::prelude::*;
use vstd::string::*;
use vstd::utf8::encode_utf8;
use crate::config::{Action, ActionView, MouseActionType, MouseButton, RunAction, WindowCommand};
use crate::gesture::{GestureTriggerButton, separator, GESTURE_DIR_SEPARATOR};
use crate::text::{
    join, concat, views, has_prefix, split, trim, decimal, hex, parse_unsigned, str_eq,
    starts_with, split_str, trim_str, join_strings, decimal_string, hex_string, parse_unsigned_str,
};

verus! {

/// The arrow for a direction name, or the name itself when it names no direction.
pub open spec fn arrow_for_name(part: Seq<char>) -> Seq<char> {
    if part == "Up"@ {
        "\u{2191}"@
    } else if part == "Down"@ {
        "\u{2193}"@
    } else if part == "Left"@ {
        "\u{2190}"@
    } else if part == "Right"@ {
        "\u{2192}"@
    } else if part == "UpLeft"@ {
        "\u{2196}"@
    } else if part == "UpRight"@ {
        "\u{2197}"@
    } else if part == "DownLeft"@ {
        "\u{2199}"@
    } else if part == "DownRight"@ {
        "\u{2198}"@
    } else {
        part
    }
}

/// The button label and the rest of a gesture key with a button prefix, if it has one.
pub open spec fn key_button_label(name: Seq<char>) -> Option<(Seq<char>, Seq<char>)> {
    if has_prefix(name, "M_"@) {
        Some(("M"@, name.skip(2)))
    } else if has_prefix(name, "R_"@) {
        Some(("R"@, name.skip(2)))
    } else if has_prefix(name, "X1_"@) {
        Some(("X1"@, name.skip(3)))
    } else if has_prefix(name, "X2_"@) {
        Some(("X2"@, name.skip(3)))
    } else {
        None
    }
}

/// The arrows for the directions in `rest` (pieces between separators, trimmed).
pub open spec fn arrows_of(rest: Seq<char>) -> Seq<char> {
    concat(split(rest, separator()).map_values(|p: Seq<char>| arrow_for_name(trim(p))))
}

/// The mnemonic of a gesture key: "M_Right → Down" is "M →↓".
pub open spec fn mnemonic(name: Seq<char>) -> Seq<char> {
    match key_button_label(name) {
        Some((label, rest)) => label + " "@ + arrows_of(rest),
        None => arrows_of(name),
    }
}

/// The arrow for a direction name, or the name itself.
fn arrow_for(part: &str) -> (r: String)
    ensures
        r@ == arrow_for_name(part@),
{
    if str_eq(part, "Up") {
        String::from_str("\u{2191}")
    } else if str_eq(part, "Down") {
        String::from_str("\u{2193}")
    } else if str_eq(part, "Left") {
        String::from_str("\u{2190}")
    } else if str_eq(part, "Right") {
        String::from_str("\u{2192}")
    } else if str_eq(part, "UpLeft") {
        String::from_str("\u{2196}")
    } else if str_eq(part, "UpRight") {
        String::from_str("\u{2197}")
    } else if str_eq(part, "DownLeft") {
        String::from_str("\u{2199}")
    } else if str_eq(part, "DownRight") {
        String::from_str("\u{2198}")
    } else {
        String::from_str(part)
    }
}

/// The arrows for the directions in `rest`.
fn arrows(rest: &str) -> (r: String)
    ensures
        r@ == arrows_of(rest@),
{
    proof {
        reveal_strlit(" → ");
    }
    let parts = split_str(rest, GESTURE_DIR_SEPARATOR);
    let mut out: Vec<String> = Vec::new();
    let mut i: usize = 0;
    while i < parts.len()
        invariant
            i <= parts@.len(),
            out@.len() == i,
            forall|k: int|
                0 <= k < i ==> (#[trigger] out@[k])@ == arrow_for_name(trim(parts@[k]@)),
        decreases parts.len() - i,
    {
        let t = trim_str(parts[i].as_str());
        out.push(arrow_for(t));
        i = i + 1;
    }
    proof {
        assert(views(out@) =~= views(parts@).map_values(|p: Seq<char>| arrow_for_name(trim(p))));
        reveal_strlit("");
        assert(""@ =~= Seq::<char>::empty());
    }
    join_strings(&out, "")
}

/// Convert a gesture name like "M_Right → Down" to a mnemonic arrow string like "M →↓"
pub fn gesture_name_to_mnemonic(name: &str) -> (r: String)
    ensures
        r@ == mnemonic(name@),
{
    proof {
        reveal_strlit("M_");
        reveal_strlit("R_");
        reveal_strlit("X1_");
        reveal_strlit("X2_");
    }
    let n = name.unicode_len();
    let (label, rest): (&str, &str) = if starts_with(name, "M_") {
        ("M", name.substring_char(2, n))
    } else if starts_with(name, "R_") {
        ("R", name.substring_char(2, n))
    } else if starts_with(name, "X1_") {
        ("X1", name.substring_char(3, n))
    } else if starts_with(name, "X2_") {
        ("X2", name.substring_char(3, n))
    } else {
        ("", name)
    };
    let a = arrows(rest);
    if starts_with(name, "M_") || starts_with(name, "R_") || starts_with(name, "X1_")
        || starts_with(name, "X2_") {
        let mut r = String::from_str(label);
        r.append(" ");
        r.append(a.as_str());
        r
    } else {
        a
    }
}

/// The trimmed, non-empty pieces of `parts`, in order.
pub open spec fn trimmed_nonempty(parts: Seq<Seq<char>>) -> Seq<Seq<char>>
    decreases parts.len(),
{
    if parts.len() == 0 {
        Seq::empty()
    } else {
        let rest = trimmed_nonempty(parts.drop_last());
        let t = trim(parts.last());
        if t.len() > 0 {
            rest.push(t)
        } else {
            rest
        }
    }
}

/// The trigger button and direction names a gesture key denotes: "M_Right → Down" is
/// (Middle, ["Right", "Down"]); a key without button prefix is a Middle-button gesture.
pub open spec fn parsed_key(key: Seq<char>) -> (GestureTriggerButton, Seq<Seq<char>>) {
    if has_prefix(key, "M_"@) {
        (GestureTriggerButton::Middle, trimmed_nonempty(split(key.skip(2), separator())))
    } else if has_prefix(key, "R_"@) {
        (GestureTriggerButton::Right, trimmed_nonempty(split(key.skip(2), separator())))
    } else if has_prefix(key, "X1_"@) {
        (GestureTriggerButton::X1, trimmed_nonempty(split(key.skip(3), separator())))
    } else if has_prefix(key, "X2_"@) {
        (GestureTriggerButton::X2, trimmed_nonempty(split(key.skip(3), separator())))
    } else {
        (GestureTriggerButton::Middle, trimmed_nonempty(split(key, separator())))
    }
}

/// The trimmed, non-empty pieces of `rest` between separators.
fn direction_names(rest: &str) -> (r: Vec<String>)
    ensures
        views(r@) == trimmed_nonempty(split(rest@, separator())),
{
    proof {
        reveal_strlit(" → ");
    }
    let parts = split_str(rest, GESTURE_DIR_SEPARATOR);
    let mut out: Vec<String> = Vec::new();
    let mut i: usize = 0;
    while i < parts.len()
        invariant
            i <= parts@.len(),
            views(out@) == trimmed_nonempty(views(parts@).take(i as int)),
        decreases parts.len() - i,
    {
        let t = trim_str(parts[i].as_str());
        proof {
            assert(views(parts@).take(i + 1).drop_last() =~= views(parts@).take(i as int));
            assert(views(parts@).take(i + 1).last() == parts@[i as int]@);
        }
        if t.unicode_len() > 0 {
            let s = String::from_str(t);
            proof {
                assert(views(out@.push(s)) =~= views(out@).push(s@));
            }
            out.push(s);
        }
        i = i + 1;
    }
    proof {
        assert(views(parts@).take(parts@.len() as int) =~= views(parts@));
    }
    out
}

/// Parse a gesture key into trigger button and directions.
/// "M_Right → Down" → (Middle, ["Right", "Down"]); "R_Up" → (Right, ["Up"]);
/// "Up" (no prefix) → (Middle, ["Up"])
pub fn parse_gesture_key(key: &str) -> (r: (GestureTriggerButton, Vec<String>))
    ensures
        r.0 == parsed_key(key@).0,
        views(r.1@) == parsed_key(key@).1,
{
    proof {
        reveal_strlit("M_");
        reveal_strlit("R_");
        reveal_strlit("X1_");
        reveal_strlit("X2_");
    }
    let n = key.unicode_len();
    if starts_with(key, "M_") {
        (GestureTriggerButton::Middle, direction_names(key.substring_char(2, n)))
    } else if starts_with(key, "R_") {
        (GestureTriggerButton::Right, direction_names(key.substring_char(2, n)))
    } else if starts_with(key, "X1_") {
        (GestureTriggerButton::X1, direction_names(key.substring_char(3, n)))
    } else if starts_with(key, "X2_") {
        (GestureTriggerButton::X2, direction_names(key.substring_char(3, n)))
    } else {
        // Legacy format without prefix - default to Middle button
        (GestureTriggerButton::Middle, direction_names(key))
    }
}

/// The dialog's index of an action type (keyboard 0, mouse 1, window 2, run 3).
pub open spec fn type_index(a: ActionView) -> i32 {
    match a {
        ActionView::Keyboard(_) => 0,
        ActionView::Mouse(_, _) => 1,
        ActionView::Window(_) => 2,
        ActionView::Run(_, _) => 3,
    }
}

/// The dialog's type index of an action (keyboard 0, mouse 1, window 2, run 3).
pub fn action_to_type_index(action: &Action) -> (r: i32)
    ensures
        r == type_index(action@),
{
    match action {
        Action::Keyboard(_) => 0,
        Action::Mouse(_) => 1,
        Action::Window(_) => 2,
        Action::Run(_) => 3,
    }
}

/// The friendly display name of a key name: modifiers by their common names, function
/// keys without "VK_" ("VK_F12" is "F12"), one-character keys by that character, and
/// other names as they are.
pub open spec fn key_display_name(vk: Seq<char>) -> Seq<char> {
    if vk == "VK_CONTROL"@ || vk == "VK_LCONTROL"@ || vk == "VK_RCONTROL"@ {
        "Ctrl"@
    } else if vk == "VK_MENU"@ || vk == "VK_LMENU"@ || vk == "VK_RMENU"@ {
        "Alt"@
    } else if vk == "VK_SHIFT"@ || vk == "VK_LSHIFT"@ || vk == "VK_RSHIFT"@ {
        "Shift"@
    } else if vk == "VK_LWIN"@ || vk == "VK_RWIN"@ {
        "Win"@
    } else if has_prefix(vk, "VK_F"@) && parse_unsigned(vk.skip(4), 10, 0xFFFF_FFFF) is Some {
        vk.skip(3)
    } else if vk == "VK_BACK"@ {
        "Backspace"@
    } else if vk == "VK_TAB"@ {
        "Tab"@
    } else if vk == "VK_RETURN"@ {
        "Enter"@
    } else if vk == "VK_ESCAPE"@ {
        "Esc"@
    } else if vk == "VK_SPACE"@ {
        "Space"@
    } else if vk == "VK_DELETE"@ {
        "Delete"@
    } else if vk == "VK_INSERT"@ {
        "Insert"@
    } else if vk == "VK_HOME"@ {
        "Home"@
    } else if vk == "VK_END"@ {
        "End"@
    } else if vk == "VK_PRIOR"@ {
        "PageUp"@
    } else if vk == "VK_NEXT"@ {
        "PageDown"@
    } else if vk == "VK_LEFT"@ {
        "←"@
    } else if vk == "VK_RIGHT"@ {
        "→"@
    } else if vk == "VK_UP"@ {
        "↑"@
    } else if vk == "VK_DOWN"@ {
        "↓"@
    } else if vk == "VK_CAPITAL"@ {
        "CapsLock"@
    } else if vk == "VK_NUMLOCK"@ {
        "NumLock"@
    } else if vk == "VK_SNAPSHOT"@ {
        "PrtScn"@
    } else if vk == "VK_SCROLL"@ {
        "ScrollLock"@
    } else if vk == "VK_PAUSE"@ {
        "Pause"@
    } else if has_prefix(vk, "VK_"@) && encode_utf8(vk).len() as usize == 4 {
        vk.skip(3)
    } else {
        vk
    }
}

/// Whether `s` equals one of three names.
fn is_one_of3(s: &str, a: &str, b: &str, c: &str) -> (r: bool)
    ensures
        r == (s@ == a@ || s@ == b@ || s@ == c@),
{
    str_eq(s, a) || str_eq(s, b) || str_eq(s, c)
}

/// Convert a single VK code to a friendly display name
pub fn vk_to_display_name(vk: &str) -> (r: String)
    ensures
        r@ == key_display_name(vk@),
{
    proof {
        reveal_strlit("VK_F");
        reveal_strlit("VK_");
    }
    let n = vk.unicode_len();
    if is_one_of3(vk, "VK_CONTROL", "VK_LCONTROL", "VK_RCONTROL") {
        String::from_str("Ctrl")
    } else if is_one_of3(vk, "VK_MENU", "VK_LMENU", "VK_RMENU") {
        String::from_str("Alt")
    } else if is_one_of3(vk, "VK_SHIFT", "VK_LSHIFT", "VK_RSHIFT") {
        String::from_str("Shift")
    } else if str_eq(vk, "VK_LWIN") || str_eq(vk, "VK_RWIN") {
        String::from_str("Win")
    } else if starts_with(vk, "VK_F") && parse_unsigned_str(vk.substring_char(4, n), 10, 0xFFFF_FFFF).is_some() {
        // VK_F1 → F1, VK_F12 → F12
        String::from_str(vk.substring_char(3, n))
    } else if str_eq(vk, "VK_BACK") {
        String::from_str("Backspace")
    } else if str_eq(vk, "VK_TAB") {
        String::from_str("Tab")
    } else if str_eq(vk, "VK_RETURN") {
        String::from_str("Enter")
    } else if str_eq(vk, "VK_ESCAPE") {
        String::from_str("Esc")
    } else if str_eq(vk, "VK_SPACE") {
        String::from_str("Space")
    } else if str_eq(vk, "VK_DELETE") {
        String::from_str("Delete")
    } else if str_eq(vk, "VK_INSERT") {
        String::from_str("Insert")
    } else if str_eq(vk, "VK_HOME") {
        String::from_str("Home")
    } else if str_eq(vk, "VK_END") {
        String::from_str("End")
    } else if str_eq(vk, "VK_PRIOR") {
        String::from_str("PageUp")
    } else if str_eq(vk, "VK_NEXT") {
        String::from_str("PageDown")
    } else if str_eq(vk, "VK_LEFT") {
        String::from_str("←")
    } else if str_eq(vk, "VK_RIGHT") {
        String::from_str("→")
    } else if str_eq(vk, "VK_UP") {
        String::from_str("↑")
    } else if str_eq(vk, "VK_DOWN") {
        String::from_str("↓")
    } else if str_eq(vk, "VK_CAPITAL") {
        String::from_str("CapsLock")
    } else if str_eq(vk, "VK_NUMLOCK") {
        String::from_str("NumLock")
    } else if str_eq(vk, "VK_SNAPSHOT") {
        String::from_str("PrtScn")
    } else if str_eq(vk, "VK_SCROLL") {
        String::from_str("ScrollLock")
    } else if str_eq(vk, "VK_PAUSE") {
        String::from_str("Pause")
    } else if starts_with(vk, "VK_") && vk.len() == 4 {
        // Single character VK codes like "VK_A" → "A"
        String::from_str(vk.substring_char(3, n))
    } else {
        // Already friendly or unknown — return as-is
        String::from_str(vk)
    }
}

/// The friendly display of a key list: "Ctrl + Alt + F1".
pub open spec fn keys_display(keys: Seq<Seq<char>>) -> Seq<char> {
    join(keys.map_values(|k: Seq<char>| key_display_name(k)), " + "@)
}

/// Format keyboard keys as friendly display string, e.g. "Ctrl + Alt + F1"
pub fn format_keys_display(keys: &Vec<String>) -> (r: String)
    ensures
        r@ == keys_display(views(keys@)),
{
    let mut parts: Vec<String> = Vec::new();
    let mut i: usize = 0;
    while i < keys.len()
        invariant
            i <= keys@.len(),
            parts@.len() == i,
            forall|k: int|
                0 <= k < i ==> (#[trigger] parts@[k])@ == key_display_name(keys@[k]@),
        decreases keys.len() - i,
    {
        parts.push(vk_to_display_name(keys[i].as_str()));
        i = i + 1;
    }
    proof {
        assert(views(parts@) =~= views(keys@).map_values(|k: Seq<char>| key_display_name(k)));
    }
    join_strings(&parts, " + ")
}

/// Two hexadecimal digits at least.
pub open spec fn pad2(h: Seq<char>) -> Seq<char> {
    if h.len() < 2 {
        "0"@ + h
    } else {
        h
    }
}

/// The display name and key name of a virtual-key code (its low byte decides).
pub open spec fn vk_info(vk: i32) -> (Seq<char>, Seq<char>) {
    let b = vk as u8;
    if (0x41 <= b <= 0x5A) || (0x30 <= b <= 0x39) {
        (seq![b as char], "VK_"@ + seq![b as char])
    } else if 0x70 <= b <= 0x7B {
        ("F"@ + decimal((b - 0x6F) as nat), "VK_F"@ + decimal((b - 0x6F) as nat))
    } else if b == 0x08 {
        ("Backspace"@, "VK_BACK"@)
    } else if b == 0x09 {
        ("Tab"@, "VK_TAB"@)
    } else if b == 0x0D {
        ("Enter"@, "VK_RETURN"@)
    } else if b == 0x1B {
        ("Esc"@, "VK_ESCAPE"@)
    } else if b == 0x20 {
        ("Space"@, "VK_SPACE"@)
    } else if b == 0x21 {
        ("PageUp"@, "VK_PRIOR"@)
    } else if b == 0x22 {
        ("PageDown"@, "VK_NEXT"@)
    } else if b == 0x23 {
        ("End"@, "VK_END"@)
    } else if b == 0x24 {
        ("Home"@, "VK_HOME"@)
    } else if b == 0x25 {
        ("←"@, "VK_LEFT"@)
    } else if b == 0x26 {
        ("↑"@, "VK_UP"@)
    } else if b == 0x27 {
        ("→"@, "VK_RIGHT"@)
    } else if b == 0x28 {
        ("↓"@, "VK_DOWN"@)
    } else if b == 0x2C {
        ("PrtScn"@, "VK_SNAPSHOT"@)
    } else if b == 0x2D {
        ("Insert"@, "VK_INSERT"@)
    } else if b == 0x2E {
        ("Delete"@, "VK_DELETE"@)
    } else if 0x60 <= b <= 0x69 {
        ("Num"@ + decimal((b - 0x60) as nat), "VK_NUMPAD"@ + decimal((b - 0x60) as nat))
    } else {
        ("0x"@ + pad2(hex((vk as u32) as nat)), "VK_0x"@ + pad2(hex((vk as u32) as nat)))
    }
}

/// The one-character string of an ASCII letter or digit code.
fn ascii_char_str(b: u8) -> (r: String)
    requires
        (0x41 <= b <= 0x5A) || (0x30 <= b <= 0x39),
    ensures
        r@ == seq![b as char],
{
    let table = "0123456789ABCDEFGHIJKLMNOPQRSTUVWXYZ";
    proof {
        reveal_strlit("0123456789ABCDEFGHIJKLMNOPQRSTUVWXYZ");
    }
    let i: usize = if b <= 0x39 { (b - 0x30) as usize } else { (b - 0x41 + 10) as usize };
    let s = table.substring_char(i, i + 1);
    proof {
        assert(s@ =~= seq![b as char]);
    }
    String::from_str(s)
}

/// A string of two or more hexadecimal digits.
fn pad2_string(h: String) -> (r: String)
    ensures
        r@ == pad2(h@),
{
    if h.unicode_len() < 2 {
        let mut r = String::from_str("0");
        r.append(h.as_str());
        r
    } else {
        h
    }
}

/// Builds a pair of strings from literal parts.
fn pair(a: &str, b: &str) -> (r: (String, String))
    ensures
        r.0@ == a@,
        r.1@ == b@,
{
    (String::from_str(a), String::from_str(b))
}

/// Convert a Windows VK code (integer) to (display_name, vk_string)
pub fn vk_code_to_info(vk: i32) -> (r: (String, String))
    ensures
        (r.0@, r.1@) == vk_info(vk),
{
    let b = vk as u8;
    if (0x41 <= b && b <= 0x5A) || (0x30 <= b && b <= 0x39) {
        let ch = ascii_char_str(b);
        let mut name = String::from_str("VK_");
        name.append(ch.as_str());
        (ch, name)
    } else if 0x70 <= b && b <= 0x7B {
        let n = decimal_string((b - 0x6F) as u64);
        let mut d = String::from_str("F");
        d.append(n.as_str());
        let mut k = String::from_str("VK_F");
        k.append(n.as_str());
        (d, k)
    } else if b == 0x08 {
        pair("Backspace", "VK_BACK")
    } else if b == 0x09 {
        pair("Tab", "VK_TAB")
    } else if b == 0x0D {
        pair("Enter", "VK_RETURN")
    } else if b == 0x1B {
        pair("Esc", "VK_ESCAPE")
    } else if b == 0x20 {
        pair("Space", "VK_SPACE")
    } else if b == 0x21 {
        pair("PageUp", "VK_PRIOR")
    } else if b == 0x22 {
        pair("PageDown", "VK_NEXT")
    } else if b == 0x23 {
        pair("End", "VK_END")
    } else if b == 0x24 {
        pair("Home", "VK_HOME")
    } else if b == 0x25 {
        pair("←", "VK_LEFT")
    } else if b == 0x26 {
        pair("↑", "VK_UP")
    } else if b == 0x27 {
        pair("→", "VK_RIGHT")
    } else if b == 0x28 {
        pair("↓", "VK_DOWN")
    } else if b == 0x2C {
        pair("PrtScn", "VK_SNAPSHOT")
    } else if b == 0x2D {
        pair("Insert", "VK_INSERT")
    } else if b == 0x2E {
        pair("Delete", "VK_DELETE")
    } else if 0x60 <= b && b <= 0x69 {
        let n = decimal_string((b - 0x60) as u64);
        let mut d = String::from_str("Num");
        d.append(n.as_str());
        let mut k = String::from_str("VK_NUMPAD");
        k.append(n.as_str());
        (d, k)
    } else {
        let h = pad2_string(hex_string(vk as u32));
        let mut d = String::from_str("0x");
        d.append(h.as_str());
        let mut k = String::from_str("VK_0x");
        k.append(h.as_str());
        (d, k)
    }
}


/// The detail text of an action shown in the dialog.
pub open spec fn action_detail(a: ActionView) -> Seq<char> {
    match a {
        ActionView::Keyboard(keys) => join(keys, "+"@),
        ActionView::Mouse(b, t) => b.spec_as_str() + " "@ + t.spec_name(),
        ActionView::Window(c) => c.spec_name(),
        ActionView::Run(cmd, args) => match args {
            Some(a) => cmd + " "@ + a,
            None => cmd,
        },
    }
}

/// The command line of a run action: the command, then a space and the arguments if any.
fn run_line(r: &RunAction) -> (s: String)
    ensures
        s@ == match opt_args_view(r) {
            Some(a) => r.command@ + " "@ + a,
            None => r.command@,
        },
{
    match &r.args {
        Some(args) => {
            let mut s = r.command.clone();
            s.append(" ");
            s.append(args.as_str());
            s
        },
        None => r.command.clone(),
    }
}

/// The view of a run action's arguments.
pub open spec fn opt_args_view(r: &RunAction) -> Option<Seq<char>> {
    match r.args {
        Some(a) => Some(a@),
        None => None,
    }
}

/// The detail text the dialog shows for an action: the keys joined by "+", the
/// button and click, the window command, or the command line.
pub fn action_to_detail(action: &Action) -> (r: String)
    ensures
        r@ == action_detail(action@),
{
    match action {
        Action::Keyboard(kb) => join_strings(&kb.keys, "+"),
        Action::Mouse(m) => {
            let mut s = String::from_str(m.button.as_str());
            s.append(" ");
            s.append(m.action_type.name());
            s
        },
        Action::Window(w) => String::from_str(w.command.name()),
        Action::Run(r) => run_line(r),
    }
}

/// The dialog's name of an action type index.
pub open spec fn type_index_display(index: i32) -> Seq<char> {
    if index == 0 {
        "键盘快捷键"@
    } else if index == 1 {
        "鼠标操作"@
    } else if index == 2 {
        "窗口管理"@
    } else if index == 3 {
        "运行程序"@
    } else {
        "未知"@
    }
}

/// The name shown for an action type index.
pub fn type_index_to_display(index: i32) -> (r: &'static str)
    ensures
        r@ == type_index_display(index),
{
    match index {
        0 => "键盘快捷键",
        1 => "鼠标操作",
        2 => "窗口管理",
        3 => "运行程序",
        _ => "未知",
    }
}

/// Generate a concise description for the action type (the gesture list's type column)
pub fn action_type_display(action: &Action) -> (r: String)
    ensures
        r@ == type_index_display(type_index(action@)),
{
    match action {
        Action::Keyboard(_) => String::from_str("键盘快捷键"),
        Action::Mouse(_) => String::from_str("鼠标操作"),
        Action::Window(_) => String::from_str("窗口管理"),
        Action::Run(_) => String::from_str("运行程序"),
    }
}

/// The dialog's name of a mouse button.
pub open spec fn button_display(b: MouseButton) -> Seq<char> {
    match b {
        MouseButton::Left => "左键"@,
        MouseButton::Right => "右键"@,
        MouseButton::Middle => "中键"@,
        MouseButton::X1 => "X1键"@,
        MouseButton::X2 => "X2键"@,
    }
}

/// The dialog's name of a click kind.
pub open spec fn click_display(t: MouseActionType) -> Seq<char> {
    match t {
        MouseActionType::Click => "单击"@,
        MouseActionType::DoubleClick => "双击"@,
    }
}

/// The dialog's name of a window command.
pub open spec fn command_display(c: WindowCommand) -> Seq<char> {
    match c {
        WindowCommand::Minimize => "最小化"@,
        WindowCommand::Maximize => "最大化"@,
        WindowCommand::Restore => "还原"@,
        WindowCommand::Close => "关闭窗口"@,
        WindowCommand::ShowDesktop => "显示桌面"@,
    }
}

/// The parameters column of the gesture list.
pub open spec fn params_display(a: ActionView) -> Seq<char> {
    match a {
        ActionView::Keyboard(keys) => keys_display(keys),
        ActionView::Mouse(b, t) => button_display(b) + click_display(t),
        ActionView::Window(c) => command_display(c),
        ActionView::Run(cmd, args) => match args {
            Some(a) => cmd + " "@ + a,
            None => cmd,
        },
    }
}

/// Generate the params display string for the gesture list's parameters column
pub fn action_params_display(action: &Action) -> (r: String)
    ensures
        r@ == params_display(action@),
{
    match action {
        Action::Keyboard(kb) => format_keys_display(&kb.keys),
        Action::Mouse(m) => {
            let btn = match m.button {
                MouseButton::Left => "左键",
                MouseButton::Right => "右键",
                MouseButton::Middle => "中键",
                MouseButton::X1 => "X1键",
                MouseButton::X2 => "X2键",
            };
            let act = match m.action_type {
                MouseActionType::Click => "单击",
                MouseActionType::DoubleClick => "双击",
            };
            let mut s = String::from_str(btn);
            s.append(act);
            s
        },
        Action::Window(w) => String::from_str(
            match w.command {
                WindowCommand::Minimize => "最小化",
                WindowCommand::Maximize => "最大化",
                WindowCommand::Restore => "还原",
                WindowCommand::Close => "关闭窗口",
                WindowCommand::ShowDesktop => "显示桌面",
            },
        ),
        Action::Run(r) => run_line(r),
    }
}

/// The dialog's index of a window command.
pub open spec fn command_index(c: WindowCommand) -> i32 {
    match c {
        WindowCommand::Minimize => 0,
        WindowCommand::Maximize => 1,
        WindowCommand::Restore => 2,
        WindowCommand::Close => 3,
        WindowCommand::ShowDesktop => 4,
    }
}

/// The window command of a dialog index; Minimize for an index out of range.
pub open spec fn command_of_index(idx: i32) -> WindowCommand {
    if idx == 1 {
        WindowCommand::Maximize
    } else if idx == 2 {
        WindowCommand::Restore
    } else if idx == 3 {
        WindowCommand::Close
    } else if idx == 4 {
        WindowCommand::ShowDesktop
    } else {
        WindowCommand::Minimize
    }
}

/// The dialog's index of a window command (0 to 4, in declaration order).
pub fn window_command_to_index(cmd: &WindowCommand) -> (r: i32)
    ensures
        r == command_index(*cmd),
{
    match cmd {
        WindowCommand::Minimize => 0,
        WindowCommand::Maximize => 1,
        WindowCommand::Restore => 2,
        WindowCommand::Close => 3,
        WindowCommand::ShowDesktop => 4,
    }
}

/// The window command of a dialog index; Minimize for an index out of range.
pub fn index_to_window_command(idx: i32) -> (r: WindowCommand)
    ensures
        r == command_of_index(idx),
{
    match idx {
        0 => WindowCommand::Minimize,
        1 => WindowCommand::Maximize,
        2 => WindowCommand::Restore,
        3 => WindowCommand::Close,
        4 => WindowCommand::ShowDesktop,
        _ => WindowCommand::Minimize,
    }
}

/// The radio-button index of a trigger button (0=Middle, 1=Right, 2=X1, 3=X2).
pub open spec fn button_index(b: GestureTriggerButton) -> i32 {
    match b {
        GestureTriggerButton::Middle => 0,
        GestureTriggerButton::Right => 1,
        GestureTriggerButton::X1 => 2,
        GestureTriggerButton::X2 => 3,
    }
}

/// The trigger button of a radio-button index; Middle for an index out of range.
pub open spec fn button_of_index(index: i32) -> GestureTriggerButton {
    if index == 1 {
        GestureTriggerButton::Right
    } else if index == 2 {
        GestureTriggerButton::X1
    } else if index == 3 {
        GestureTriggerButton::X2
    } else {
        GestureTriggerButton::Middle
    }
}

/// Convert GestureTriggerButton to radio button index (0=Middle, 1=Right, 2=X1, 3=X2)
pub fn trigger_button_to_index(button: &GestureTriggerButton) -> (r: i32)
    ensures
        r == button_index(*button),
{
    match button {
        GestureTriggerButton::Middle => 0,
        GestureTriggerButton::Right => 1,
        GestureTriggerButton::X1 => 2,
        GestureTriggerButton::X2 => 3,
    }
}

/// Convert radio button index to GestureTriggerButton
pub fn index_to_trigger_button(index: i32) -> (r: GestureTriggerButton)
    ensures
        r == button_of_index(index),
{
    match index {
        0 => GestureTriggerButton::Middle,
        1 => GestureTriggerButton::Right,
        2 => GestureTriggerButton::X1,
        3 => GestureTriggerButton::X2,
        _ => GestureTriggerButton::Middle,
    }
}

/// The dialog's index conversions undo each other: a window command and a trigger
/// button survive the trip to their index and back.
pub proof fn lemma_index_round_trips(c: WindowCommand, b: GestureTriggerButton)
    ensures
        command_of_index(command_index(c)) == c,
        button_of_index(button_index(b)) == b,
        0 <= command_index(c) <= 4,
        0 <= button_index(b) <= 3,
{
}

/// An index in range survives the trip to its command or button and back.
pub proof fn lemma_index_round_trips_back(i: i32, j: i32)
    ensures
        0 <= i <= 4 ==> command_index(command_of_index(i)) == i,
        0 <= j <= 3 ==> button_index(button_of_index(j)) == j,
{
}

} // verus!
