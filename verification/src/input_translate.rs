//! Translation of host key, button and modifier events into the scene
//! graph's names: a pure mapping from typed keys to `key_*`/`btn_*` strings
//! and from modifier flags to a bitmask.

use vstd::prelude::*;
use vstd::string::StringExecFns;

verus! {

/// Bit for a held shift modifier in the wire mask.
pub const MOD_SHIFT: u8 = 0x01;

/// Bit for a held control modifier in the wire mask.
pub const MOD_CTRL: u8 = 0x02;

/// Bit for a held alt modifier in the wire mask.
pub const MOD_ALT: u8 = 0x04;

/// Bit for a held meta (super) modifier in the wire mask.
pub const MOD_META: u8 = 0x08;

/// Where on the keyboard a key sits, where that changes its name.
#[derive(Clone, Copy, Debug, PartialEq, Eq, Structural)]
pub enum KeyLocation {
    Standard,
    Left,
    Right,
    Numpad,
}

/// A named (non-character) key.
#[derive(Clone, Copy, Debug, PartialEq, Eq, Structural)]
pub enum NamedKey {
    Enter,
    Tab,
    Space,
    Escape,
    Backspace,
    Insert,
    Delete,
    ArrowLeft,
    ArrowRight,
    ArrowUp,
    ArrowDown,
    PageUp,
    PageDown,
    Home,
    End,
    CapsLock,
    ScrollLock,
    NumLock,
    PrintScreen,
    Pause,
    ContextMenu,
    Shift,
    Control,
    Alt,
    AltGraph,
    Super,
    Meta,
    Hyper,
    F1,
    F2,
    F3,
    F4,
    F5,
    F6,
    F7,
    F8,
    F9,
    F10,
    F11,
    F12,
    F13,
    F14,
    F15,
    F16,
    F17,
    F18,
    F19,
    F20,
    F21,
    F22,
    F23,
    F24,
}

/// A key event's logical key.
#[derive(Clone, Copy, Debug, PartialEq, Eq, Structural)]
pub enum Key {
    Character(char),
    Named(NamedKey),
    Unidentified,
}

/// A mouse button.
#[derive(Clone, Copy, Debug, PartialEq, Eq, Structural)]
pub enum MouseButton {
    Left,
    Right,
    Middle,
    Back,
    Forward,
    Other,
}

/// The currently held modifiers.
#[derive(Clone, Copy, Debug, PartialEq, Eq, Structural)]
pub struct Modifiers {
    pub shift: bool,
    pub ctrl: bool,
    pub alt: bool,
    pub meta: bool,
}

impl Default for Modifiers {
    /// No modifier held.
    fn default() -> (r: Modifiers)
        ensures
            r == (Modifiers { shift: false, ctrl: false, alt: false, meta: false }),
    {
        Modifiers { shift: false, ctrl: false, alt: false, meta: false }
    }
}

/// The wire bitmask of a modifier set.  The modifier bits are disjoint, so
/// the mask is the sum of the bits of the held modifiers.
pub open spec fn spec_modifiers_mask(mods: Modifiers) -> u8 {
    ((if mods.shift {
        MOD_SHIFT as int
    } else {
        0
    }) + (if mods.ctrl {
        MOD_CTRL as int
    } else {
        0
    }) + (if mods.alt {
        MOD_ALT as int
    } else {
        0
    }) + (if mods.meta {
        MOD_META as int
    } else {
        0
    })) as u8
}

/// Packs the held modifiers into the wire bitmask.
pub fn modifiers_to_mask(mods: Modifiers) -> (mask: u8)
    ensures
        mask == spec_modifiers_mask(mods),
{
    let mut mask: u8 = 0;
    if mods.shift {
        mask = mask + MOD_SHIFT;
    }
    if mods.ctrl {
        mask = mask + MOD_CTRL;
    }
    if mods.alt {
        mask = mask + MOD_ALT;
    }
    if mods.meta {
        mask = mask + MOD_META;
    }
    mask
}

/// The scene name of an ASCII character key, if it has one.
pub open spec fn spec_ascii_name(ch: char) -> Option<Seq<char>> {
    if 'A' <= ch && ch <= 'Z' {
        spec_lower_ascii_name(((ch as u8) + 32) as char)
    } else {
        spec_lower_ascii_name(ch)
    }
}

/// The scene name of a lower-case or symbol character key, if it has one.
pub open spec fn spec_lower_ascii_name(ch: char) -> Option<Seq<char>> {
    match ch {
        'a' => Some("key_a"@),
        'b' => Some("key_b"@),
        'c' => Some("key_c"@),
        'd' => Some("key_d"@),
        'e' => Some("key_e"@),
        'f' => Some("key_f"@),
        'g' => Some("key_g"@),
        'h' => Some("key_h"@),
        'i' => Some("key_i"@),
        'j' => Some("key_j"@),
        'k' => Some("key_k"@),
        'l' => Some("key_l"@),
        'm' => Some("key_m"@),
        'n' => Some("key_n"@),
        'o' => Some("key_o"@),
        'p' => Some("key_p"@),
        'q' => Some("key_q"@),
        'r' => Some("key_r"@),
        's' => Some("key_s"@),
        't' => Some("key_t"@),
        'u' => Some("key_u"@),
        'v' => Some("key_v"@),
        'w' => Some("key_w"@),
        'x' => Some("key_x"@),
        'y' => Some("key_y"@),
        'z' => Some("key_z"@),
        '0' => Some("key_0"@),
        '1' => Some("key_1"@),
        '2' => Some("key_2"@),
        '3' => Some("key_3"@),
        '4' => Some("key_4"@),
        '5' => Some("key_5"@),
        '6' => Some("key_6"@),
        '7' => Some("key_7"@),
        '8' => Some("key_8"@),
        '9' => Some("key_9"@),
        ' ' => Some("key_space"@),
        '\'' => Some("key_apostrophe"@),
        ',' => Some("key_comma"@),
        '-' => Some("key_minus"@),
        '.' => Some("key_dot"@),
        '/' => Some("key_slash"@),
        ';' => Some("key_semicolon"@),
        '=' => Some("key_equal"@),
        '[' => Some("key_leftbrace"@),
        '\\' => Some("key_backslash"@),
        ']' => Some("key_rightbrace"@),
        '`' => Some("key_grave"@),
        _ => None,
    }
}

/// The scene name of a numpad character key, if it has one.
pub open spec fn spec_numpad_name(ch: char) -> Option<Seq<char>> {
    match ch {
        '0' => Some("key_kp0"@),
        '1' => Some("key_kp1"@),
        '2' => Some("key_kp2"@),
        '3' => Some("key_kp3"@),
        '4' => Some("key_kp4"@),
        '5' => Some("key_kp5"@),
        '6' => Some("key_kp6"@),
        '7' => Some("key_kp7"@),
        '8' => Some("key_kp8"@),
        '9' => Some("key_kp9"@),
        '.' => Some("key_kpdot"@),
        '/' => Some("key_kpslash"@),
        '*' => Some("key_kpasterisk"@),
        '-' => Some("key_kpminus"@),
        '+' => Some("key_kpplus"@),
        '=' => Some("key_kpequal"@),
        _ => None,
    }
}

/// A left/right-aware modifier key name.
pub open spec fn spec_modifier_name(
    generic: Seq<char>,
    left: Seq<char>,
    right: Seq<char>,
    location: KeyLocation,
) -> Seq<char> {
    match location {
        KeyLocation::Left => left,
        KeyLocation::Right => right,
        _ => generic,
    }
}

/// The scene name of a named key at a location.
pub open spec fn spec_named_key_name(key: NamedKey, location: KeyLocation) -> Seq<char> {
    match key {
        NamedKey::Enter => if location is Numpad {
            "key_kpenter"@
        } else {
            "key_enter"@
        },
        NamedKey::Tab => "key_tab"@,
        NamedKey::Space => "key_space"@,
        NamedKey::Escape => "key_esc"@,
        NamedKey::Backspace => "key_backspace"@,
        NamedKey::Insert => "key_insert"@,
        NamedKey::Delete => "key_delete"@,
        NamedKey::ArrowLeft => "key_left"@,
        NamedKey::ArrowRight => "key_right"@,
        NamedKey::ArrowUp => "key_up"@,
        NamedKey::ArrowDown => "key_down"@,
        NamedKey::PageUp => "key_pageup"@,
        NamedKey::PageDown => "key_pagedown"@,
        NamedKey::Home => "key_home"@,
        NamedKey::End => "key_end"@,
        NamedKey::CapsLock => "key_capslock"@,
        NamedKey::ScrollLock => "key_scrolllock"@,
        NamedKey::NumLock => "key_numlock"@,
        NamedKey::PrintScreen => "key_screen"@,
        NamedKey::Pause => "key_pause"@,
        NamedKey::ContextMenu => "key_menu"@,
        NamedKey::Shift => spec_modifier_name(
            "key_shift"@,
            "key_leftshift"@,
            "key_rightshift"@,
            location,
        ),
        NamedKey::Control => spec_modifier_name(
            "key_ctrl"@,
            "key_leftctrl"@,
            "key_rightctrl"@,
            location,
        ),
        NamedKey::Alt => spec_modifier_name(
            "key_alt"@,
            "key_leftalt"@,
            "key_rightalt"@,
            location,
        ),
        NamedKey::AltGraph => "key_rightalt"@,
        NamedKey::Super => spec_modifier_name(
            "key_meta"@,
            "key_leftmeta"@,
            "key_rightmeta"@,
            location,
        ),
        NamedKey::Meta => spec_modifier_name(
            "key_meta"@,
            "key_leftmeta"@,
            "key_rightmeta"@,
            location,
        ),
        NamedKey::Hyper => spec_modifier_name(
            "key_meta"@,
            "key_leftmeta"@,
            "key_rightmeta"@,
            location,
        ),
        NamedKey::F1 => "key_f1"@,
        NamedKey::F2 => "key_f2"@,
        NamedKey::F3 => "key_f3"@,
        NamedKey::F4 => "key_f4"@,
        NamedKey::F5 => "key_f5"@,
        NamedKey::F6 => "key_f6"@,
        NamedKey::F7 => "key_f7"@,
        NamedKey::F8 => "key_f8"@,
        NamedKey::F9 => "key_f9"@,
        NamedKey::F10 => "key_f10"@,
        NamedKey::F11 => "key_f11"@,
        NamedKey::F12 => "key_f12"@,
        NamedKey::F13 => "key_f13"@,
        NamedKey::F14 => "key_f14"@,
        NamedKey::F15 => "key_f15"@,
        NamedKey::F16 => "key_f16"@,
        NamedKey::F17 => "key_f17"@,
        NamedKey::F18 => "key_f18"@,
        NamedKey::F19 => "key_f19"@,
        NamedKey::F20 => "key_f20"@,
        NamedKey::F21 => "key_f21"@,
        NamedKey::F22 => "key_f22"@,
        NamedKey::F23 => "key_f23"@,
        NamedKey::F24 => "key_f24"@,
    }
}

/// The scene name of a character key at a location: numpad names first,
/// then the ASCII names (upper case folded to lower), else unknown.
pub open spec fn spec_character_name(ch: char, location: KeyLocation) -> Seq<char> {
    if location is Numpad && spec_numpad_name(ch) is Some {
        spec_numpad_name(ch).unwrap()
    } else if spec_ascii_name(ch) is Some {
        spec_ascii_name(ch).unwrap()
    } else {
        "key_unknown"@
    }
}

/// The scene name of any key event.
pub open spec fn spec_key_name(key: Key, location: KeyLocation) -> Seq<char> {
    match key {
        Key::Character(ch) => spec_character_name(ch, location),
        Key::Named(named) => spec_named_key_name(named, location),
        Key::Unidentified => "key_unknown"@,
    }
}

/// The scene name of a mouse button.
pub open spec fn spec_button_name(button: MouseButton) -> Seq<char> {
    match button {
        MouseButton::Left => "btn_left"@,
        MouseButton::Right => "btn_right"@,
        MouseButton::Middle => "btn_middle"@,
        _ => "btn_unknown"@,
    }
}

/// Translates a key event into its scene name.
pub fn key_to_scenic(key: Key, location: KeyLocation) -> (r: String)
    ensures
        r@ == spec_key_name(key, location),
{
    match key {
        Key::Character(ch) => character_to_scenic(ch, location),
        Key::Named(named) => named_key_to_scenic(named, location),
        Key::Unidentified => String::from_str("key_unknown"),
    }
}

/// Translates a mouse button into its scene name.
pub fn button_to_scenic(button: MouseButton) -> (r: String)
    ensures
        r@ == spec_button_name(button),
{
    match button {
        MouseButton::Left => String::from_str("btn_left"),
        MouseButton::Right => String::from_str("btn_right"),
        MouseButton::Middle => String::from_str("btn_middle"),
        MouseButton::Back => String::from_str("btn_unknown"),
        MouseButton::Forward => String::from_str("btn_unknown"),
        MouseButton::Other => String::from_str("btn_unknown"),
    }
}

/// Translates a character key, preferring numpad names on the numpad.
pub fn character_to_scenic(ch: char, location: KeyLocation) -> (r: String)
    ensures
        r@ == spec_character_name(ch, location),
{
    if location == KeyLocation::Numpad {
        if let Some(name) = numpad_char_to_scenic(ch) {
            return String::from_str(name);
        }
    }
    if let Some(name) = ascii_char_to_scenic(ch) {
        return String::from_str(name);
    }
    String::from_str("key_unknown")
}

/// The scene name of an ASCII character key, upper case folded to lower.
pub fn ascii_char_to_scenic(ch: char) -> (r: Option<&'static str>)
    ensures
        match r {
            Some(name) => spec_ascii_name(ch) == Some(name@),
            None => spec_ascii_name(ch) is None,
        },
{
    if 'A' <= ch && ch <= 'Z' {
        let lowered = ((ch as u8) + 32) as char;
        return lower_ascii_char_to_scenic(lowered);
    }
    lower_ascii_char_to_scenic(ch)
}

/// The scene name of a lower-case or symbol character key.
fn lower_ascii_char_to_scenic(ch: char) -> (r: Option<&'static str>)
    ensures
        match r {
            Some(name) => spec_lower_ascii_name(ch) == Some(name@),
            None => spec_lower_ascii_name(ch) is None,
        },
{
    match ch {
        'a' => Some("key_a"),
        'b' => Some("key_b"),
        'c' => Some("key_c"),
        'd' => Some("key_d"),
        'e' => Some("key_e"),
        'f' => Some("key_f"),
        'g' => Some("key_g"),
        'h' => Some("key_h"),
        'i' => Some("key_i"),
        'j' => Some("key_j"),
        'k' => Some("key_k"),
        'l' => Some("key_l"),
        'm' => Some("key_m"),
        'n' => Some("key_n"),
        'o' => Some("key_o"),
        'p' => Some("key_p"),
        'q' => Some("key_q"),
        'r' => Some("key_r"),
        's' => Some("key_s"),
        't' => Some("key_t"),
        'u' => Some("key_u"),
        'v' => Some("key_v"),
        'w' => Some("key_w"),
        'x' => Some("key_x"),
        'y' => Some("key_y"),
        'z' => Some("key_z"),
        '0' => Some("key_0"),
        '1' => Some("key_1"),
        '2' => Some("key_2"),
        '3' => Some("key_3"),
        '4' => Some("key_4"),
        '5' => Some("key_5"),
        '6' => Some("key_6"),
        '7' => Some("key_7"),
        '8' => Some("key_8"),
        '9' => Some("key_9"),
        ' ' => Some("key_space"),
        '\'' => Some("key_apostrophe"),
        ',' => Some("key_comma"),
        '-' => Some("key_minus"),
        '.' => Some("key_dot"),
        '/' => Some("key_slash"),
        ';' => Some("key_semicolon"),
        '=' => Some("key_equal"),
        '[' => Some("key_leftbrace"),
        '\\' => Some("key_backslash"),
        ']' => Some("key_rightbrace"),
        '`' => Some("key_grave"),
        _ => None,
    }
}

/// The scene name of a numpad character key.
pub fn numpad_char_to_scenic(ch: char) -> (r: Option<&'static str>)
    ensures
        match r {
            Some(name) => spec_numpad_name(ch) == Some(name@),
            None => spec_numpad_name(ch) is None,
        },
{
    match ch {
        '0' => Some("key_kp0"),
        '1' => Some("key_kp1"),
        '2' => Some("key_kp2"),
        '3' => Some("key_kp3"),
        '4' => Some("key_kp4"),
        '5' => Some("key_kp5"),
        '6' => Some("key_kp6"),
        '7' => Some("key_kp7"),
        '8' => Some("key_kp8"),
        '9' => Some("key_kp9"),
        '.' => Some("key_kpdot"),
        '/' => Some("key_kpslash"),
        '*' => Some("key_kpasterisk"),
        '-' => Some("key_kpminus"),
        '+' => Some("key_kpplus"),
        '=' => Some("key_kpequal"),
        _ => None,
    }
}

/// The scene name of a named key at a location.
pub fn named_key_to_scenic(key: NamedKey, location: KeyLocation) -> (r: String)
    ensures
        r@ == spec_named_key_name(key, location),
{
    match key {
        NamedKey::Enter => match location {
            KeyLocation::Numpad => String::from_str("key_kpenter"),
            _ => String::from_str("key_enter"),
        },
        NamedKey::Tab => String::from_str("key_tab"),
        NamedKey::Space => String::from_str("key_space"),
        NamedKey::Escape => String::from_str("key_esc"),
        NamedKey::Backspace => String::from_str("key_backspace"),
        NamedKey::Insert => String::from_str("key_insert"),
        NamedKey::Delete => String::from_str("key_delete"),
        NamedKey::ArrowLeft => String::from_str("key_left"),
        NamedKey::ArrowRight => String::from_str("key_right"),
        NamedKey::ArrowUp => String::from_str("key_up"),
        NamedKey::ArrowDown => String::from_str("key_down"),
        NamedKey::PageUp => String::from_str("key_pageup"),
        NamedKey::PageDown => String::from_str("key_pagedown"),
        NamedKey::Home => String::from_str("key_home"),
        NamedKey::End => String::from_str("key_end"),
        NamedKey::CapsLock => String::from_str("key_capslock"),
        NamedKey::ScrollLock => String::from_str("key_scrolllock"),
        NamedKey::NumLock => String::from_str("key_numlock"),
        NamedKey::PrintScreen => String::from_str("key_screen"),
        NamedKey::Pause => String::from_str("key_pause"),
        NamedKey::ContextMenu => String::from_str("key_menu"),
        NamedKey::Shift => modifier_key("key_shift", "key_leftshift", "key_rightshift", location),
        NamedKey::Control => modifier_key("key_ctrl", "key_leftctrl", "key_rightctrl", location),
        NamedKey::Alt => modifier_key("key_alt", "key_leftalt", "key_rightalt", location),
        NamedKey::AltGraph => String::from_str("key_rightalt"),
        NamedKey::Super => modifier_key("key_meta", "key_leftmeta", "key_rightmeta", location),
        NamedKey::Meta => modifier_key("key_meta", "key_leftmeta", "key_rightmeta", location),
        NamedKey::Hyper => modifier_key("key_meta", "key_leftmeta", "key_rightmeta", location),
        NamedKey::F1 => String::from_str("key_f1"),
        NamedKey::F2 => String::from_str("key_f2"),
        NamedKey::F3 => String::from_str("key_f3"),
        NamedKey::F4 => String::from_str("key_f4"),
        NamedKey::F5 => String::from_str("key_f5"),
        NamedKey::F6 => String::from_str("key_f6"),
        NamedKey::F7 => String::from_str("key_f7"),
        NamedKey::F8 => String::from_str("key_f8"),
        NamedKey::F9 => String::from_str("key_f9"),
        NamedKey::F10 => String::from_str("key_f10"),
        NamedKey::F11 => String::from_str("key_f11"),
        NamedKey::F12 => String::from_str("key_f12"),
        NamedKey::F13 => String::from_str("key_f13"),
        NamedKey::F14 => String::from_str("key_f14"),
        NamedKey::F15 => String::from_str("key_f15"),
        NamedKey::F16 => String::from_str("key_f16"),
        NamedKey::F17 => String::from_str("key_f17"),
        NamedKey::F18 => String::from_str("key_f18"),
        NamedKey::F19 => String::from_str("key_f19"),
        NamedKey::F20 => String::from_str("key_f20"),
        NamedKey::F21 => String::from_str("key_f21"),
        NamedKey::F22 => String::from_str("key_f22"),
        NamedKey::F23 => String::from_str("key_f23"),
        NamedKey::F24 => String::from_str("key_f24"),
    }
}

/// Picks the left, right or generic name of a modifier key.
pub fn modifier_key(generic: &str, left: &str, right: &str, location: KeyLocation) -> (r: String)
    ensures
        r@ == spec_modifier_name(generic@, left@, right@, location),
{
    match location {
        KeyLocation::Left => String::from_str(left),
        KeyLocation::Right => String::from_str(right),
        _ => String::from_str(generic),
    }
}

} // verus!
