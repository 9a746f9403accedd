//! Mapping key names from the configuration to Windows virtual-key codes.
use vstd::prelude::*;
use vstd::string::*;
use crate::text::{
    str_eq, starts_with, has_prefix, decimal, decimal_string, parse_unsigned, parse_unsigned_str,
    unsigned_body, all_digits,
};

verus! {

/// The upper-case form of a string, as `str::to_uppercase` gives it (full Unicode case
/// mapping; a function of the string alone).
pub uninterp spec fn uppercase_of(s: Seq<char>) -> Seq<char>;

/// Every character of `s` is ASCII.
pub open spec fn is_ascii_text(s: Seq<char>) -> bool {
    forall|i: int| 0 <= i < s.len() ==> (#[trigger] s[i] as u32) < 0x80
}

/// The ASCII upper case of `c`: 'a' to 'z' become 'A' to 'Z', other characters stay.
pub open spec fn ascii_upper_char(c: char) -> char {
    if 'a' <= c <= 'z' {
        ((c as u32) - 32) as char
    } else {
        c
    }
}

/// `s` with its ASCII letters in upper case.
pub open spec fn ascii_upper(s: Seq<char>) -> Seq<char> {
    s.map_values(|c: char| ascii_upper_char(c))
}

/// Calls `str::to_uppercase`. The result is the upper-case form of `s`, named
/// `uppercase_of`; for ASCII text it is the ASCII upper case (the documentation of
/// `str::to_ascii_uppercase` points to `to_uppercase` for upper-casing ASCII characters
/// too, and in Unicode's case mapping 'a' to 'z' map to 'A' to 'Z' and other ASCII
/// characters to themselves). Nothing more about the Unicode case mapping is stated.
#[verifier::external_body]
fn to_uppercase(s: &str) -> (r: String)
    ensures
        r@ == uppercase_of(s@),
        is_ascii_text(s@) ==> r@ == ascii_upper(s@),
{
    s.to_uppercase()
}

/// Error of the key mapping.
#[derive(Debug, Clone)]
pub enum KeyMapError {
    /// The key name is not known and is no number either.
    UnknownKey(String),
}

/// The code of a named key (modifiers, editing, arrow and navigation keys), given the
/// upper-case name.
pub open spec fn named_key_code(u: Seq<char>) -> Option<u16> {
    if u == "VK_CONTROL"@ || u == "CONTROL"@ || u == "CTRL"@ {
        Some(0x11)
    } else if u == "VK_LCONTROL"@ || u == "LCONTROL"@ || u == "LCTRL"@ {
        Some(0xA2)
    } else if u == "VK_RCONTROL"@ || u == "RCONTROL"@ || u == "RCTRL"@ {
        Some(0xA3)
    } else if u == "VK_SHIFT"@ || u == "SHIFT"@ {
        Some(0x10)
    } else if u == "VK_LSHIFT"@ || u == "LSHIFT"@ {
        Some(0xA0)
    } else if u == "VK_RSHIFT"@ || u == "RSHIFT"@ {
        Some(0xA1)
    } else if u == "VK_ALT"@ || u == "ALT"@ {
        Some(0x12)
    } else if u == "VK_LMENU"@ || u == "LALT"@ {
        Some(0xA4)
    } else if u == "VK_RMENU"@ || u == "RALT"@ {
        Some(0xA5)
    } else if u == "VK_LWIN"@ || u == "LWIN"@ {
        Some(0x5B)
    } else if u == "VK_RWIN"@ || u == "RWIN"@ {
        Some(0x5C)
    } else if u == "VK_BACK"@ || u == "BACKSPACE"@ {
        Some(0x08)
    } else if u == "VK_TAB"@ || u == "TAB"@ {
        Some(0x09)
    } else if u == "VK_RETURN"@ || u == "ENTER"@ {
        Some(0x0D)
    } else if u == "VK_ESCAPE"@ || u == "ESC"@ {
        Some(0x1B)
    } else if u == "VK_SPACE"@ || u == "SPACE"@ {
        Some(0x20)
    } else if u == "VK_LEFT"@ || u == "LEFT"@ {
        Some(0x25)
    } else if u == "VK_UP"@ || u == "UP"@ {
        Some(0x26)
    } else if u == "VK_RIGHT"@ || u == "RIGHT"@ {
        Some(0x27)
    } else if u == "VK_DOWN"@ || u == "DOWN"@ {
        Some(0x28)
    } else if u == "VK_HOME"@ || u == "HOME"@ {
        Some(0x24)
    } else if u == "VK_END"@ || u == "END"@ {
        Some(0x23)
    } else if u == "VK_PRIOR"@ || u == "PAGEUP"@ {
        Some(0x21)
    } else if u == "VK_NEXT"@ || u == "PAGEDOWN"@ {
        Some(0x22)
    } else if u == "VK_INSERT"@ || u == "INSERT"@ {
        Some(0x2D)
    } else if u == "VK_DELETE"@ || u == "DELETE"@ {
        Some(0x2E)
    } else {
        None
    }
}

/// The code of a letter or digit key ("A" or "VK_A" is 0x41, "7" or "VK_7" is 0x37).
pub open spec fn char_key_code(u: Seq<char>) -> Option<u16> {
    let c = if u.len() == 1 {
        Some(u[0])
    } else if u.len() == 4 && has_prefix(u, "VK_"@) {
        Some(u[3])
    } else {
        None
    };
    match c {
        Some(ch) => if ('A' <= ch <= 'Z') || ('0' <= ch <= '9') {
            Some(ch as u16)
        } else {
            None
        },
        None => None,
    }
}

/// The code of a function key F`n` for `n` from `from` to 12 ("F1"/"VK_F1" is 0x70).
pub open spec fn function_key_code_from(u: Seq<char>, from: nat) -> Option<u16>
    decreases 13 - from,
{
    if from < 1 || from > 12 {
        None
    } else if u == "F"@ + decimal(from) || u == "VK_F"@ + decimal(from) {
        Some((0x6F + from) as u16)
    } else {
        function_key_code_from(u, from + 1)
    }
}

/// The code of the key an upper-case name denotes, if it names one.
pub open spec fn key_code_of_upper(u: Seq<char>) -> Option<u16> {
    match named_key_code(u) {
        Some(c) => Some(c),
        None => match char_key_code(u) {
            Some(c) => Some(c),
            None => function_key_code_from(u, 1),
        },
    }
}

/// The virtual-key code for `key` given its upper-case form `upper`: the named key, or
/// else `key` read as a decimal number that fits 16 bits.
pub open spec fn key_code(upper: Seq<char>, key: Seq<char>) -> Option<u16> {
    match key_code_of_upper(upper) {
        Some(c) => Some(c),
        None => match parse_unsigned(key, 10, 0xFFFF) {
            Some(v) => Some(v as u16),
            None => None,
        },
    }
}

/// Whether `u` equals one of two names.
fn is_either(u: &str, a: &str, b: &str) -> (r: bool)
    ensures
        r == (u@ == a@ || u@ == b@),
{
    str_eq(u, a) || str_eq(u, b)
}

/// The code of a named key.
fn named_key(u: &str) -> (r: Option<u16>)
    ensures
        r == named_key_code(u@),
{
    if is_either(u, "VK_CONTROL", "CONTROL") || str_eq(u, "CTRL") {
        Some(0x11)
    } else if is_either(u, "VK_LCONTROL", "LCONTROL") || str_eq(u, "LCTRL") {
        Some(0xA2)
    } else if is_either(u, "VK_RCONTROL", "RCONTROL") || str_eq(u, "RCTRL") {
        Some(0xA3)
    } else if is_either(u, "VK_SHIFT", "SHIFT") {
        Some(0x10)
    } else if is_either(u, "VK_LSHIFT", "LSHIFT") {
        Some(0xA0)
    } else if is_either(u, "VK_RSHIFT", "RSHIFT") {
        Some(0xA1)
    } else if is_either(u, "VK_ALT", "ALT") {
        Some(0x12)
    } else if is_either(u, "VK_LMENU", "LALT") {
        Some(0xA4)
    } else if is_either(u, "VK_RMENU", "RALT") {
        Some(0xA5)
    } else if is_either(u, "VK_LWIN", "LWIN") {
        Some(0x5B)
    } else if is_either(u, "VK_RWIN", "RWIN") {
        Some(0x5C)
    } else if is_either(u, "VK_BACK", "BACKSPACE") {
        Some(0x08)
    } else if is_either(u, "VK_TAB", "TAB") {
        Some(0x09)
    } else if is_either(u, "VK_RETURN", "ENTER") {
        Some(0x0D)
    } else if is_either(u, "VK_ESCAPE", "ESC") {
        Some(0x1B)
    } else if is_either(u, "VK_SPACE", "SPACE") {
        Some(0x20)
    } else if is_either(u, "VK_LEFT", "LEFT") {
        Some(0x25)
    } else if is_either(u, "VK_UP", "UP") {
        Some(0x26)
    } else if is_either(u, "VK_RIGHT", "RIGHT") {
        Some(0x27)
    } else if is_either(u, "VK_DOWN", "DOWN") {
        Some(0x28)
    } else if is_either(u, "VK_HOME", "HOME") {
        Some(0x24)
    } else if is_either(u, "VK_END", "END") {
        Some(0x23)
    } else if is_either(u, "VK_PRIOR", "PAGEUP") {
        Some(0x21)
    } else if is_either(u, "VK_NEXT", "PAGEDOWN") {
        Some(0x22)
    } else if is_either(u, "VK_INSERT", "INSERT") {
        Some(0x2D)
    } else if is_either(u, "VK_DELETE", "DELETE") {
        Some(0x2E)
    } else {
        None
    }
}

/// The code of a letter or digit key.
fn char_key(u: &str) -> (r: Option<u16>)
    ensures
        r == char_key_code(u@),
{
    let n = u.unicode_len();
    let c = if n == 1 {
        Some(u.get_char(0))
    } else if n == 4 && starts_with(u, "VK_") {
        proof {
            reveal_strlit("VK_");
        }
        Some(u.get_char(3))
    } else {
        None
    };
    match c {
        Some(ch) => if ('A' <= ch && ch <= 'Z') || ('0' <= ch && ch <= '9') {
            Some((ch as u32) as u16)
        } else {
            None
        },
        None => None,
    }
}

/// The code of a function key F1 to F12.
fn function_key(u: &str) -> (r: Option<u16>)
    ensures
        r == function_key_code_from(u@, 1),
{
    let mut n: u32 = 1;
    while n <= 12
        invariant
            1 <= n <= 13,
            function_key_code_from(u@, 1) == function_key_code_from(u@, n as nat),
        decreases 13 - n,
    {
        let digits = decimal_string(n as u64);
        let mut short = String::from_str("F");
        short.append(digits.as_str());
        let mut long = String::from_str("VK_F");
        long.append(digits.as_str());
        if is_either(u, short.as_str(), long.as_str()) {
            return Some((0x6F + n) as u16);
        }
        n = n + 1;
    }
    None
}

/// The virtual-key code for `key`, given its upper-case form `upper`.
pub fn key_code_from_upper(upper: &str, key: &str) -> (r: Result<u16, KeyMapError>)
    ensures
        match key_code(upper@, key@) {
            Some(c) => r == Ok::<u16, KeyMapError>(c),
            None => r matches Err(KeyMapError::UnknownKey(k)) && k@ == key@,
        },
{
    if let Some(c) = named_key(upper) {
        return Ok(c);
    }
    if let Some(c) = char_key(upper) {
        return Ok(c);
    }
    if let Some(c) = function_key(upper) {
        return Ok(c);
    }
    // Try to parse as virtual key code
    match parse_unsigned_str(key, 10, 0xFFFF) {
        Some(v) => Ok(v as u16),
        None => Err(KeyMapError::UnknownKey(String::from_str(key))),
    }
}

/// Map key string to virtual key code
pub fn map_key_to_vk(key: &str) -> (r: Result<u16, KeyMapError>)
    ensures
        match key_code(uppercase_of(key@), key@) {
            Some(c) => r == Ok::<u16, KeyMapError>(c),
            None => r matches Err(KeyMapError::UnknownKey(k)) && k@ == key@,
        },
        is_ascii_text(key@) ==> match key_code(ascii_upper(key@), key@) {
            Some(c) => r == Ok::<u16, KeyMapError>(c),
            None => r matches Err(KeyMapError::UnknownKey(k)) && k@ == key@,
        },
{
    let upper = to_uppercase(key);
    key_code_from_upper(upper.as_str(), key)
}

/// Upper-casing ASCII text twice is upper-casing it once, and keeps it ASCII.
proof fn lemma_ascii_upper_idempotent(s: Seq<char>)
    requires
        is_ascii_text(s),
    ensures
        is_ascii_text(ascii_upper(s)),
        ascii_upper(ascii_upper(s)) == ascii_upper(s),
{
    assert(ascii_upper(ascii_upper(s)) =~= ascii_upper(s));
}

/// Upper-casing keeps a number's text: either nothing changes, or the text holds a
/// letter and is no number either way.
proof fn lemma_parse_ignores_ascii_case(s: Seq<char>)
    requires
        is_ascii_text(s),
    ensures
        parse_unsigned(s, 10, 0xFFFF) == parse_unsigned(ascii_upper(s), 10, 0xFFFF),
{
    let u = ascii_upper(s);
    if exists|i: int| 0 <= i < s.len() && 'a' <= #[trigger] s[i] <= 'z' {
        let i = choose|i: int| 0 <= i < s.len() && 'a' <= #[trigger] s[i] <= 'z';
        assert('A' <= u[i] <= 'Z');
        let bs = unsigned_body(s);
        let bu = unsigned_body(u);
        if s.len() > 0 && s[0] == '+' {
            assert(u[0] == '+');
            assert(i > 0);
            assert(bs[i - 1] == s[i]);
            assert(bu[i - 1] == u[i]);
            assert(!all_digits(bs, 10));
            assert(!all_digits(bu, 10));
        } else {
            assert(!(u.len() > 0 && u[0] == '+'));
            assert(bs[i] == s[i]);
            assert(bu[i] == u[i]);
            assert(!all_digits(bs, 10));
            assert(!all_digits(bu, 10));
        }
    } else {
        assert(u =~= s);
    }
}

/// Key names are read without regard to the case of ASCII letters: an ASCII name maps
/// to the same code (or the same failure) as its upper-case form ("vk_l" as "VK_L").
pub proof fn lemma_key_names_ignore_ascii_case(k: Seq<char>)
    requires
        is_ascii_text(k),
    ensures
        key_code(ascii_upper(k), k) == key_code(ascii_upper(ascii_upper(k)), ascii_upper(k)),
{
    lemma_ascii_upper_idempotent(k);
    lemma_parse_ignores_ascii_case(k);
}

/// The named keys map to the Windows virtual-key codes of the keys they name: the
/// modifier keys (Ctrl 0x11, Shift 0x10, Alt 0x12 and their left and right forms, the
/// Windows keys 0x5B and 0x5C), Backspace 0x08, Tab 0x09, Enter 0x0D, Esc 0x1B, Space
/// 0x20, the arrows Left 0x25, Up 0x26, Right 0x27 and Down 0x28, and Home 0x24, End
/// 0x23, Page Up 0x21, Page Down 0x22, Insert 0x2D, Delete 0x2E; each both with and
/// without the "VK_" prefix.
pub proof fn lemma_named_keys_have_their_windows_codes()
    ensures
        key_code_of_upper("VK_CONTROL"@) == Some(0x11u16),
        key_code_of_upper("CONTROL"@) == Some(0x11u16),
        key_code_of_upper("CTRL"@) == Some(0x11u16),
        key_code_of_upper("VK_LCONTROL"@) == Some(0xA2u16),
        key_code_of_upper("LCONTROL"@) == Some(0xA2u16),
        key_code_of_upper("LCTRL"@) == Some(0xA2u16),
        key_code_of_upper("VK_RCONTROL"@) == Some(0xA3u16),
        key_code_of_upper("RCONTROL"@) == Some(0xA3u16),
        key_code_of_upper("RCTRL"@) == Some(0xA3u16),
        key_code_of_upper("VK_SHIFT"@) == Some(0x10u16),
        key_code_of_upper("SHIFT"@) == Some(0x10u16),
        key_code_of_upper("VK_LSHIFT"@) == Some(0xA0u16),
        key_code_of_upper("LSHIFT"@) == Some(0xA0u16),
        key_code_of_upper("VK_RSHIFT"@) == Some(0xA1u16),
        key_code_of_upper("RSHIFT"@) == Some(0xA1u16),
        key_code_of_upper("VK_ALT"@) == Some(0x12u16),
        key_code_of_upper("ALT"@) == Some(0x12u16),
        key_code_of_upper("VK_LMENU"@) == Some(0xA4u16),
        key_code_of_upper("LALT"@) == Some(0xA4u16),
        key_code_of_upper("VK_RMENU"@) == Some(0xA5u16),
        key_code_of_upper("RALT"@) == Some(0xA5u16),
        key_code_of_upper("VK_LWIN"@) == Some(0x5Bu16),
        key_code_of_upper("LWIN"@) == Some(0x5Bu16),
        key_code_of_upper("VK_RWIN"@) == Some(0x5Cu16),
        key_code_of_upper("RWIN"@) == Some(0x5Cu16),
        key_code_of_upper("VK_BACK"@) == Some(0x08u16),
        key_code_of_upper("BACKSPACE"@) == Some(0x08u16),
        key_code_of_upper("VK_TAB"@) == Some(0x09u16),
        key_code_of_upper("TAB"@) == Some(0x09u16),
        key_code_of_upper("VK_RETURN"@) == Some(0x0Du16),
        key_code_of_upper("ENTER"@) == Some(0x0Du16),
        key_code_of_upper("VK_ESCAPE"@) == Some(0x1Bu16),
        key_code_of_upper("ESC"@) == Some(0x1Bu16),
        key_code_of_upper("VK_SPACE"@) == Some(0x20u16),
        key_code_of_upper("SPACE"@) == Some(0x20u16),
        key_code_of_upper("VK_LEFT"@) == Some(0x25u16),
        key_code_of_upper("LEFT"@) == Some(0x25u16),
        key_code_of_upper("VK_UP"@) == Some(0x26u16),
        key_code_of_upper("UP"@) == Some(0x26u16),
        key_code_of_upper("VK_RIGHT"@) == Some(0x27u16),
        key_code_of_upper("RIGHT"@) == Some(0x27u16),
        key_code_of_upper("VK_DOWN"@) == Some(0x28u16),
        key_code_of_upper("DOWN"@) == Some(0x28u16),
        key_code_of_upper("VK_HOME"@) == Some(0x24u16),
        key_code_of_upper("HOME"@) == Some(0x24u16),
        key_code_of_upper("VK_END"@) == Some(0x23u16),
        key_code_of_upper("END"@) == Some(0x23u16),
        key_code_of_upper("VK_PRIOR"@) == Some(0x21u16),
        key_code_of_upper("PAGEUP"@) == Some(0x21u16),
        key_code_of_upper("VK_NEXT"@) == Some(0x22u16),
        key_code_of_upper("PAGEDOWN"@) == Some(0x22u16),
        key_code_of_upper("VK_INSERT"@) == Some(0x2Du16),
        key_code_of_upper("INSERT"@) == Some(0x2Du16),
        key_code_of_upper("VK_DELETE"@) == Some(0x2Eu16),
        key_code_of_upper("DELETE"@) == Some(0x2Eu16),
{
    reveal_strlit("VK_CONTROL");
    reveal_strlit("CONTROL");
    reveal_strlit("CTRL");
    reveal_strlit("VK_LCONTROL");
    reveal_strlit("LCONTROL");
    reveal_strlit("LCTRL");
    reveal_strlit("VK_RCONTROL");
    reveal_strlit("RCONTROL");
    reveal_strlit("RCTRL");
    reveal_strlit("VK_SHIFT");
    reveal_strlit("SHIFT");
    reveal_strlit("VK_LSHIFT");
    reveal_strlit("LSHIFT");
    reveal_strlit("VK_RSHIFT");
    reveal_strlit("RSHIFT");
    reveal_strlit("VK_ALT");
    reveal_strlit("ALT");
    reveal_strlit("VK_LMENU");
    reveal_strlit("LALT");
    reveal_strlit("VK_RMENU");
    reveal_strlit("RALT");
    reveal_strlit("VK_LWIN");
    reveal_strlit("LWIN");
    reveal_strlit("VK_RWIN");
    reveal_strlit("RWIN");
    reveal_strlit("VK_BACK");
    reveal_strlit("BACKSPACE");
    reveal_strlit("VK_TAB");
    reveal_strlit("TAB");
    reveal_strlit("VK_RETURN");
    reveal_strlit("ENTER");
    reveal_strlit("VK_ESCAPE");
    reveal_strlit("ESC");
    reveal_strlit("VK_SPACE");
    reveal_strlit("SPACE");
    reveal_strlit("VK_LEFT");
    reveal_strlit("LEFT");
    reveal_strlit("VK_UP");
    reveal_strlit("UP");
    reveal_strlit("VK_RIGHT");
    reveal_strlit("RIGHT");
    reveal_strlit("VK_DOWN");
    reveal_strlit("DOWN");
    reveal_strlit("VK_HOME");
    reveal_strlit("HOME");
    reveal_strlit("VK_END");
    reveal_strlit("END");
    reveal_strlit("VK_PRIOR");
    reveal_strlit("PAGEUP");
    reveal_strlit("VK_NEXT");
    reveal_strlit("PAGEDOWN");
    reveal_strlit("VK_INSERT");
    reveal_strlit("INSERT");
    reveal_strlit("VK_DELETE");
    reveal_strlit("DELETE");
    assert(key_code_of_upper("VK_RCONTROL"@) == Some(0xA3u16)) by {
        assert("VK_RCONTROL"@[3] != "VK_LCONTROL"@[3]);
    }
    assert(key_code_of_upper("RCONTROL"@) == Some(0xA3u16)) by {
        assert("RCONTROL"@[0] != "LCONTROL"@[0]);
    }
    assert(key_code_of_upper("RCTRL"@) == Some(0xA3u16)) by {
        assert("RCTRL"@[0] != "LCTRL"@[0]);
    }
    assert(key_code_of_upper("VK_SHIFT"@) == Some(0x10u16)) by {
        assert("VK_SHIFT"@[0] != "LCONTROL"@[0]);
        assert("VK_SHIFT"@[0] != "RCONTROL"@[0]);
    }
    assert(key_code_of_upper("SHIFT"@) == Some(0x10u16)) by {
        assert("SHIFT"@[0] != "LCTRL"@[0]);
        assert("SHIFT"@[0] != "RCTRL"@[0]);
    }
    assert(key_code_of_upper("VK_RSHIFT"@) == Some(0xA1u16)) by {
        assert("VK_RSHIFT"@[3] != "VK_LSHIFT"@[3]);
    }
    assert(key_code_of_upper("RSHIFT"@) == Some(0xA1u16)) by {
        assert("RSHIFT"@[0] != "LSHIFT"@[0]);
    }
    assert(key_code_of_upper("VK_ALT"@) == Some(0x12u16)) by {
        assert("VK_ALT"@[0] != "LSHIFT"@[0]);
        assert("VK_ALT"@[0] != "RSHIFT"@[0]);
    }
    assert(key_code_of_upper("VK_LMENU"@) == Some(0xA4u16)) by {
        assert("VK_LMENU"@[0] != "LCONTROL"@[0]);
        assert("VK_LMENU"@[0] != "RCONTROL"@[0]);
        assert("VK_LMENU"@[3] != "VK_SHIFT"@[3]);
    }
    assert(key_code_of_upper("LALT"@) == Some(0xA4u16)) by {
        assert("LALT"@[0] != "CTRL"@[0]);
    }
    assert(key_code_of_upper("VK_RMENU"@) == Some(0xA5u16)) by {
        assert("VK_RMENU"@[0] != "LCONTROL"@[0]);
        assert("VK_RMENU"@[0] != "RCONTROL"@[0]);
        assert("VK_RMENU"@[3] != "VK_SHIFT"@[3]);
        assert("VK_RMENU"@[3] != "VK_LMENU"@[3]);
    }
    assert(key_code_of_upper("RALT"@) == Some(0xA5u16)) by {
        assert("RALT"@[0] != "CTRL"@[0]);
        assert("RALT"@[0] != "LALT"@[0]);
    }
    assert(key_code_of_upper("VK_LWIN"@) == Some(0x5Bu16)) by {
        assert("VK_LWIN"@[0] != "CONTROL"@[0]);
    }
    assert(key_code_of_upper("LWIN"@) == Some(0x5Bu16)) by {
        assert("LWIN"@[0] != "CTRL"@[0]);
        assert("LWIN"@[1] != "LALT"@[1]);
        assert("LWIN"@[0] != "RALT"@[0]);
    }
    assert(key_code_of_upper("VK_RWIN"@) == Some(0x5Cu16)) by {
        assert("VK_RWIN"@[0] != "CONTROL"@[0]);
        assert("VK_RWIN"@[3] != "VK_LWIN"@[3]);
    }
    assert(key_code_of_upper("RWIN"@) == Some(0x5Cu16)) by {
        assert("RWIN"@[0] != "CTRL"@[0]);
        assert("RWIN"@[0] != "LALT"@[0]);
        assert("RWIN"@[1] != "RALT"@[1]);
        assert("RWIN"@[0] != "LWIN"@[0]);
    }
    assert(key_code_of_upper("VK_BACK"@) == Some(0x08u16)) by {
        assert("VK_BACK"@[0] != "CONTROL"@[0]);
        assert("VK_BACK"@[3] != "VK_LWIN"@[3]);
        assert("VK_BACK"@[3] != "VK_RWIN"@[3]);
    }
    assert(key_code_of_upper("BACKSPACE"@) == Some(0x08u16)) by {
        assert("BACKSPACE"@[0] != "VK_LSHIFT"@[0]);
        assert("BACKSPACE"@[0] != "VK_RSHIFT"@[0]);
    }
    assert(key_code_of_upper("VK_TAB"@) == Some(0x09u16)) by {
        assert("VK_TAB"@[0] != "LSHIFT"@[0]);
        assert("VK_TAB"@[0] != "RSHIFT"@[0]);
        assert("VK_TAB"@[3] != "VK_ALT"@[3]);
    }
    assert(key_code_of_upper("TAB"@) == Some(0x09u16)) by {
        assert("TAB"@[0] != "ALT"@[0]);
    }
    assert(key_code_of_upper("VK_RETURN"@) == Some(0x0Du16)) by {
        assert("VK_RETURN"@[3] != "VK_LSHIFT"@[3]);
        assert("VK_RETURN"@[4] != "VK_RSHIFT"@[4]);
        assert("VK_RETURN"@[0] != "BACKSPACE"@[0]);
    }
    assert(key_code_of_upper("ENTER"@) == Some(0x0Du16)) by {
        assert("ENTER"@[0] != "LCTRL"@[0]);
        assert("ENTER"@[0] != "RCTRL"@[0]);
        assert("ENTER"@[0] != "SHIFT"@[0]);
    }
    assert(key_code_of_upper("VK_ESCAPE"@) == Some(0x1Bu16)) by {
        assert("VK_ESCAPE"@[3] != "VK_LSHIFT"@[3]);
        assert("VK_ESCAPE"@[3] != "VK_RSHIFT"@[3]);
        assert("VK_ESCAPE"@[0] != "BACKSPACE"@[0]);
        assert("VK_ESCAPE"@[3] != "VK_RETURN"@[3]);
    }
    assert(key_code_of_upper("ESC"@) == Some(0x1Bu16)) by {
        assert("ESC"@[0] != "ALT"@[0]);
        assert("ESC"@[0] != "TAB"@[0]);
    }
    assert(key_code_of_upper("VK_SPACE"@) == Some(0x20u16)) by {
        assert("VK_SPACE"@[0] != "LCONTROL"@[0]);
        assert("VK_SPACE"@[0] != "RCONTROL"@[0]);
        assert("VK_SPACE"@[4] != "VK_SHIFT"@[4]);
        assert("VK_SPACE"@[3] != "VK_LMENU"@[3]);
        assert("VK_SPACE"@[3] != "VK_RMENU"@[3]);
    }
    assert(key_code_of_upper("SPACE"@) == Some(0x20u16)) by {
        assert("SPACE"@[0] != "LCTRL"@[0]);
        assert("SPACE"@[0] != "RCTRL"@[0]);
        assert("SPACE"@[1] != "SHIFT"@[1]);
        assert("SPACE"@[0] != "ENTER"@[0]);
    }
    assert(key_code_of_upper("VK_LEFT"@) == Some(0x25u16)) by {
        assert("VK_LEFT"@[0] != "CONTROL"@[0]);
        assert("VK_LEFT"@[4] != "VK_LWIN"@[4]);
        assert("VK_LEFT"@[3] != "VK_RWIN"@[3]);
        assert("VK_LEFT"@[3] != "VK_BACK"@[3]);
    }
    assert(key_code_of_upper("LEFT"@) == Some(0x25u16)) by {
        assert("LEFT"@[0] != "CTRL"@[0]);
        assert("LEFT"@[1] != "LALT"@[1]);
        assert("LEFT"@[0] != "RALT"@[0]);
        assert("LEFT"@[1] != "LWIN"@[1]);
        assert("LEFT"@[0] != "RWIN"@[0]);
    }
    assert(key_code_of_upper("VK_UP"@) == Some(0x26u16)) by {
        assert("VK_UP"@[0] != "LCTRL"@[0]);
        assert("VK_UP"@[0] != "RCTRL"@[0]);
        assert("VK_UP"@[0] != "SHIFT"@[0]);
        assert("VK_UP"@[0] != "ENTER"@[0]);
        assert("VK_UP"@[0] != "SPACE"@[0]);
    }
    assert(key_code_of_upper("VK_RIGHT"@) == Some(0x27u16)) by {
        assert("VK_RIGHT"@[0] != "LCONTROL"@[0]);
        assert("VK_RIGHT"@[0] != "RCONTROL"@[0]);
        assert("VK_RIGHT"@[3] != "VK_SHIFT"@[3]);
        assert("VK_RIGHT"@[3] != "VK_LMENU"@[3]);
        assert("VK_RIGHT"@[4] != "VK_RMENU"@[4]);
        assert("VK_RIGHT"@[3] != "VK_SPACE"@[3]);
    }
    assert(key_code_of_upper("RIGHT"@) == Some(0x27u16)) by {
        assert("RIGHT"@[0] != "LCTRL"@[0]);
        assert("RIGHT"@[1] != "RCTRL"@[1]);
        assert("RIGHT"@[0] != "SHIFT"@[0]);
        assert("RIGHT"@[0] != "ENTER"@[0]);
        assert("RIGHT"@[0] != "SPACE"@[0]);
        assert("RIGHT"@[0] != "VK_UP"@[0]);
    }
    assert(key_code_of_upper("VK_DOWN"@) == Some(0x28u16)) by {
        assert("VK_DOWN"@[0] != "CONTROL"@[0]);
        assert("VK_DOWN"@[3] != "VK_LWIN"@[3]);
        assert("VK_DOWN"@[3] != "VK_RWIN"@[3]);
        assert("VK_DOWN"@[3] != "VK_BACK"@[3]);
        assert("VK_DOWN"@[3] != "VK_LEFT"@[3]);
    }
    assert(key_code_of_upper("DOWN"@) == Some(0x28u16)) by {
        assert("DOWN"@[0] != "CTRL"@[0]);
        assert("DOWN"@[0] != "LALT"@[0]);
        assert("DOWN"@[0] != "RALT"@[0]);
        assert("DOWN"@[0] != "LWIN"@[0]);
        assert("DOWN"@[0] != "RWIN"@[0]);
        assert("DOWN"@[0] != "LEFT"@[0]);
    }
    assert(key_code_of_upper("VK_HOME"@) == Some(0x24u16)) by {
        assert("VK_HOME"@[0] != "CONTROL"@[0]);
        assert("VK_HOME"@[3] != "VK_LWIN"@[3]);
        assert("VK_HOME"@[3] != "VK_RWIN"@[3]);
        assert("VK_HOME"@[3] != "VK_BACK"@[3]);
        assert("VK_HOME"@[3] != "VK_LEFT"@[3]);
        assert("VK_HOME"@[3] != "VK_DOWN"@[3]);
    }
    assert(key_code_of_upper("HOME"@) == Some(0x24u16)) by {
        assert("HOME"@[0] != "CTRL"@[0]);
        assert("HOME"@[0] != "LALT"@[0]);
        assert("HOME"@[0] != "RALT"@[0]);
        assert("HOME"@[0] != "LWIN"@[0]);
        assert("HOME"@[0] != "RWIN"@[0]);
        assert("HOME"@[0] != "LEFT"@[0]);
        assert("HOME"@[0] != "DOWN"@[0]);
    }
    assert(key_code_of_upper("VK_END"@) == Some(0x23u16)) by {
        assert("VK_END"@[0] != "LSHIFT"@[0]);
        assert("VK_END"@[0] != "RSHIFT"@[0]);
        assert("VK_END"@[3] != "VK_ALT"@[3]);
        assert("VK_END"@[3] != "VK_TAB"@[3]);
    }
    assert(key_code_of_upper("END"@) == Some(0x23u16)) by {
        assert("END"@[0] != "ALT"@[0]);
        assert("END"@[0] != "TAB"@[0]);
        assert("END"@[1] != "ESC"@[1]);
    }
    assert(key_code_of_upper("VK_PRIOR"@) == Some(0x21u16)) by {
        assert("VK_PRIOR"@[0] != "LCONTROL"@[0]);
        assert("VK_PRIOR"@[0] != "RCONTROL"@[0]);
        assert("VK_PRIOR"@[3] != "VK_SHIFT"@[3]);
        assert("VK_PRIOR"@[3] != "VK_LMENU"@[3]);
        assert("VK_PRIOR"@[3] != "VK_RMENU"@[3]);
        assert("VK_PRIOR"@[3] != "VK_SPACE"@[3]);
        assert("VK_PRIOR"@[3] != "VK_RIGHT"@[3]);
    }
    assert(key_code_of_upper("PAGEUP"@) == Some(0x21u16)) by {
        assert("PAGEUP"@[0] != "LSHIFT"@[0]);
        assert("PAGEUP"@[0] != "RSHIFT"@[0]);
        assert("PAGEUP"@[0] != "VK_ALT"@[0]);
        assert("PAGEUP"@[0] != "VK_TAB"@[0]);
        assert("PAGEUP"@[0] != "VK_END"@[0]);
    }
    assert(key_code_of_upper("VK_NEXT"@) == Some(0x22u16)) by {
        assert("VK_NEXT"@[0] != "CONTROL"@[0]);
        assert("VK_NEXT"@[3] != "VK_LWIN"@[3]);
        assert("VK_NEXT"@[3] != "VK_RWIN"@[3]);
        assert("VK_NEXT"@[3] != "VK_BACK"@[3]);
        assert("VK_NEXT"@[3] != "VK_LEFT"@[3]);
        assert("VK_NEXT"@[3] != "VK_DOWN"@[3]);
        assert("VK_NEXT"@[3] != "VK_HOME"@[3]);
    }
    assert(key_code_of_upper("PAGEDOWN"@) == Some(0x22u16)) by {
        assert("PAGEDOWN"@[0] != "LCONTROL"@[0]);
        assert("PAGEDOWN"@[0] != "RCONTROL"@[0]);
        assert("PAGEDOWN"@[0] != "VK_SHIFT"@[0]);
        assert("PAGEDOWN"@[0] != "VK_LMENU"@[0]);
        assert("PAGEDOWN"@[0] != "VK_RMENU"@[0]);
        assert("PAGEDOWN"@[0] != "VK_SPACE"@[0]);
        assert("PAGEDOWN"@[0] != "VK_RIGHT"@[0]);
        assert("PAGEDOWN"@[0] != "VK_PRIOR"@[0]);
    }
    assert(key_code_of_upper("VK_INSERT"@) == Some(0x2Du16)) by {
        assert("VK_INSERT"@[3] != "VK_LSHIFT"@[3]);
        assert("VK_INSERT"@[3] != "VK_RSHIFT"@[3]);
        assert("VK_INSERT"@[0] != "BACKSPACE"@[0]);
        assert("VK_INSERT"@[3] != "VK_RETURN"@[3]);
        assert("VK_INSERT"@[3] != "VK_ESCAPE"@[3]);
    }
    assert(key_code_of_upper("INSERT"@) == Some(0x2Du16)) by {
        assert("INSERT"@[0] != "LSHIFT"@[0]);
        assert("INSERT"@[0] != "RSHIFT"@[0]);
        assert("INSERT"@[0] != "VK_ALT"@[0]);
        assert("INSERT"@[0] != "VK_TAB"@[0]);
        assert("INSERT"@[0] != "VK_END"@[0]);
        assert("INSERT"@[0] != "PAGEUP"@[0]);
    }
    assert(key_code_of_upper("VK_DELETE"@) == Some(0x2Eu16)) by {
        assert("VK_DELETE"@[3] != "VK_LSHIFT"@[3]);
        assert("VK_DELETE"@[3] != "VK_RSHIFT"@[3]);
        assert("VK_DELETE"@[0] != "BACKSPACE"@[0]);
        assert("VK_DELETE"@[3] != "VK_RETURN"@[3]);
        assert("VK_DELETE"@[3] != "VK_ESCAPE"@[3]);
        assert("VK_DELETE"@[3] != "VK_INSERT"@[3]);
    }
    assert(key_code_of_upper("DELETE"@) == Some(0x2Eu16)) by {
        assert("DELETE"@[0] != "LSHIFT"@[0]);
        assert("DELETE"@[0] != "RSHIFT"@[0]);
        assert("DELETE"@[0] != "VK_ALT"@[0]);
        assert("DELETE"@[0] != "VK_TAB"@[0]);
        assert("DELETE"@[0] != "VK_END"@[0]);
        assert("DELETE"@[0] != "PAGEUP"@[0]);
        assert("DELETE"@[0] != "INSERT"@[0]);
    }
}

/// A letter or digit names its own key: "A" to "Z" and "0" to "9", with or without the
/// "VK_" prefix, map to the character's code (0x41 to 0x5A, 0x30 to 0x39), which is
/// the Windows virtual-key code of that key.
pub proof fn lemma_letters_and_digits_name_their_keys(c: char)
    requires
        ('A' <= c <= 'Z') || ('0' <= c <= '9'),
    ensures
        key_code_of_upper(seq![c]) == Some(c as u16),
        key_code_of_upper(seq!['V', 'K', '_', c]) == Some(c as u16),
{
    reveal_strlit("VK_CONTROL");
    reveal_strlit("CONTROL");
    reveal_strlit("CTRL");
    reveal_strlit("VK_LCONTROL");
    reveal_strlit("LCONTROL");
    reveal_strlit("LCTRL");
    reveal_strlit("VK_RCONTROL");
    reveal_strlit("RCONTROL");
    reveal_strlit("RCTRL");
    reveal_strlit("VK_SHIFT");
    reveal_strlit("SHIFT");
    reveal_strlit("VK_LSHIFT");
    reveal_strlit("LSHIFT");
    reveal_strlit("VK_RSHIFT");
    reveal_strlit("RSHIFT");
    reveal_strlit("VK_ALT");
    reveal_strlit("ALT");
    reveal_strlit("VK_LMENU");
    reveal_strlit("LALT");
    reveal_strlit("VK_RMENU");
    reveal_strlit("RALT");
    reveal_strlit("VK_LWIN");
    reveal_strlit("LWIN");
    reveal_strlit("VK_RWIN");
    reveal_strlit("RWIN");
    reveal_strlit("VK_BACK");
    reveal_strlit("BACKSPACE");
    reveal_strlit("VK_TAB");
    reveal_strlit("TAB");
    reveal_strlit("VK_RETURN");
    reveal_strlit("ENTER");
    reveal_strlit("VK_ESCAPE");
    reveal_strlit("ESC");
    reveal_strlit("VK_SPACE");
    reveal_strlit("SPACE");
    reveal_strlit("VK_LEFT");
    reveal_strlit("LEFT");
    reveal_strlit("VK_UP");
    reveal_strlit("UP");
    reveal_strlit("VK_RIGHT");
    reveal_strlit("RIGHT");
    reveal_strlit("VK_DOWN");
    reveal_strlit("DOWN");
    reveal_strlit("VK_HOME");
    reveal_strlit("HOME");
    reveal_strlit("VK_END");
    reveal_strlit("END");
    reveal_strlit("VK_PRIOR");
    reveal_strlit("PAGEUP");
    reveal_strlit("VK_NEXT");
    reveal_strlit("PAGEDOWN");
    reveal_strlit("VK_INSERT");
    reveal_strlit("INSERT");
    reveal_strlit("VK_DELETE");
    reveal_strlit("DELETE");
    reveal_strlit("VK_");
    assert("CTRL"@[0] != 'V');
    assert("LALT"@[0] != 'V');
    assert("RALT"@[0] != 'V');
    assert("LWIN"@[0] != 'V');
    assert("RWIN"@[0] != 'V');
    assert("LEFT"@[0] != 'V');
    assert("DOWN"@[0] != 'V');
    assert("HOME"@[0] != 'V');
    assert(seq!['V', 'K', '_', c].subrange(0, 3) =~= "VK_"@);
}

/// The digits of `n` for n from 1 to 12.
proof fn lemma_small_decimal(n: nat)
    requires
        1 <= n <= 12,
    ensures
        n < 10 ==> decimal(n) == seq![((n + 48) as u32) as char],
        n >= 10 ==> decimal(n) == seq!['1', (((n - 10) + 48) as u32) as char],
{
    if n >= 10 {
        assert(decimal(n / 10) == seq!['1']);
        assert(decimal(n) =~= seq!['1', (((n - 10) + 48) as u32) as char]);
    }
}

/// Function key F`n` (with or without "VK_") is found when the search starts at or
/// before `n`.
proof fn lemma_function_key_found(u: Seq<char>, n: nat, from: nat)
    requires
        1 <= from <= n <= 12,
        u == "F"@ + decimal(n) || u == "VK_F"@ + decimal(n),
    ensures
        function_key_code_from(u, from) == Some((0x6F + n) as u16),
    decreases n - from,
{
    reveal_strlit("F");
    reveal_strlit("VK_F");
    if from < n {
        lemma_small_decimal(n);
        lemma_small_decimal(from);
        let a = "F"@ + decimal(from);
        let b = "VK_F"@ + decimal(from);
        if u.len() == a.len() {
            if n < 10 {
                assert(u[1] != a[1]);
            } else {
                assert(u[2] != a[2]);
            }
        }
        if u.len() == b.len() {
            if n < 10 {
                assert(u[4] != b[4]);
            } else {
                assert(u[5] != b[5]);
            }
        }
        lemma_function_key_found(u, n, from + 1);
    }
}

/// The function keys map to their Windows virtual-key codes: F1 is 0x70 up to F12 at
/// 0x7B, with or without the "VK_" prefix.
pub proof fn lemma_function_keys_have_their_windows_codes(n: nat)
    requires
        1 <= n <= 12,
    ensures
        key_code_of_upper("F"@ + decimal(n)) == Some((0x6F + n) as u16),
        key_code_of_upper("VK_F"@ + decimal(n)) == Some((0x6F + n) as u16),
{
    reveal_strlit("VK_CONTROL");
    reveal_strlit("CONTROL");
    reveal_strlit("CTRL");
    reveal_strlit("VK_LCONTROL");
    reveal_strlit("LCONTROL");
    reveal_strlit("LCTRL");
    reveal_strlit("VK_RCONTROL");
    reveal_strlit("RCONTROL");
    reveal_strlit("RCTRL");
    reveal_strlit("VK_SHIFT");
    reveal_strlit("SHIFT");
    reveal_strlit("VK_LSHIFT");
    reveal_strlit("LSHIFT");
    reveal_strlit("VK_RSHIFT");
    reveal_strlit("RSHIFT");
    reveal_strlit("VK_ALT");
    reveal_strlit("ALT");
    reveal_strlit("VK_LMENU");
    reveal_strlit("LALT");
    reveal_strlit("VK_RMENU");
    reveal_strlit("RALT");
    reveal_strlit("VK_LWIN");
    reveal_strlit("LWIN");
    reveal_strlit("VK_RWIN");
    reveal_strlit("RWIN");
    reveal_strlit("VK_BACK");
    reveal_strlit("BACKSPACE");
    reveal_strlit("VK_TAB");
    reveal_strlit("TAB");
    reveal_strlit("VK_RETURN");
    reveal_strlit("ENTER");
    reveal_strlit("VK_ESCAPE");
    reveal_strlit("ESC");
    reveal_strlit("VK_SPACE");
    reveal_strlit("SPACE");
    reveal_strlit("VK_LEFT");
    reveal_strlit("LEFT");
    reveal_strlit("VK_UP");
    reveal_strlit("UP");
    reveal_strlit("VK_RIGHT");
    reveal_strlit("RIGHT");
    reveal_strlit("VK_DOWN");
    reveal_strlit("DOWN");
    reveal_strlit("VK_HOME");
    reveal_strlit("HOME");
    reveal_strlit("VK_END");
    reveal_strlit("END");
    reveal_strlit("VK_PRIOR");
    reveal_strlit("PAGEUP");
    reveal_strlit("VK_NEXT");
    reveal_strlit("PAGEDOWN");
    reveal_strlit("VK_INSERT");
    reveal_strlit("INSERT");
    reveal_strlit("VK_DELETE");
    reveal_strlit("DELETE");
    reveal_strlit("F");
    reveal_strlit("VK_F");
    lemma_small_decimal(n);
    let s = "F"@ + decimal(n);
    let l = "VK_F"@ + decimal(n);
    assert(s[0] == 'F');
    assert(l[0] == 'V' && l[3] == 'F');
    assert("ALT"@[0] != 'F');
    assert("TAB"@[0] != 'F');
    assert("ESC"@[0] != 'F');
    assert("UP"@[0] != 'F');
    assert("END"@[0] != 'F');
    assert("LCTRL"@[0] != 'V');
    assert("RCTRL"@[0] != 'V');
    assert("SHIFT"@[0] != 'V');
    assert("LSHIFT"@[0] != 'V');
    assert("RSHIFT"@[0] != 'V');
    assert("VK_ALT"@[3] != 'F');
    assert("VK_TAB"@[3] != 'F');
    assert("ENTER"@[0] != 'V');
    assert("SPACE"@[0] != 'V');
    assert("VK_UP"@[3] != 'F');
    assert("RIGHT"@[0] != 'V');
    assert("VK_END"@[3] != 'F');
    assert("PAGEUP"@[0] != 'V');
    assert("INSERT"@[0] != 'V');
    assert("DELETE"@[0] != 'V');
    lemma_function_key_found(s, n, 1);
    lemma_function_key_found(l, n, 1);
}

} // verus!
