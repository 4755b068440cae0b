//! Pure keyboard and axis helpers for the raw input path: turning key
//! events into typed characters under shift and caps lock, and tracking
//! absolute-axis state from device events.

use vstd::prelude::*;

use crate::input_translate::{Key, Modifiers};

verus! {

/// The character a digit key produces, shifted or not.
pub open spec fn spec_shift_digit(ch: char, shift: bool) -> Option<char> {
    if !shift {
        Some(ch)
    } else {
        match ch {
            '1' => Some('!'),
            '2' => Some('@'),
            '3' => Some('#'),
            '4' => Some('$'),
            '5' => Some('%'),
            '6' => Some('^'),
            '7' => Some('&'),
            '8' => Some('*'),
            '9' => Some('('),
            '0' => Some(')'),
            _ => None,
        }
    }
}

/// The character a key press produces, given the held modifiers and the
/// caps-lock state.  Letters honor shift xor caps lock; digits and symbols
/// honor shift alone; non-character keys produce nothing.
pub open spec fn spec_key_codepoint(key: Key, mods: Modifiers, caps_lock: bool) -> Option<
    char,
> {
    let shift = mods.shift;
    let uppercase = shift != caps_lock;
    match key {
        Key::Character(ch) => if 'a' <= ch && ch <= 'z' {
            if uppercase {
                Some((((ch as u8) - 32) as char))
            } else {
                Some(ch)
            }
        } else if '0' <= ch && ch <= '9' {
            spec_shift_digit(ch, shift)
        } else {
            match ch {
                '-' => Some(
                    if shift {
                        '_'
                    } else {
                        '-'
                    },
                ),
                '=' => Some(
                    if shift {
                        '+'
                    } else {
                        '='
                    },
                ),
                '[' => Some(
                    if shift {
                        '{'
                    } else {
                        '['
                    },
                ),
                ']' => Some(
                    if shift {
                        '}'
                    } else {
                        ']'
                    },
                ),
                '\\' => Some(
                    if shift {
                        '|'
                    } else {
                        '\\'
                    },
                ),
                ';' => Some(
                    if shift {
                        ':'
                    } else {
                        ';'
                    },
                ),
                '\'' => Some(
                    if shift {
                        '"'
                    } else {
                        '\''
                    },
                ),
                '`' => Some(
                    if shift {
                        '~'
                    } else {
                        '`'
                    },
                ),
                ',' => Some(
                    if shift {
                        '<'
                    } else {
                        ','
                    },
                ),
                '.' => Some(
                    if shift {
                        '>'
                    } else {
                        '.'
                    },
                ),
                '/' => Some(
                    if shift {
                        '?'
                    } else {
                        '/'
                    },
                ),
                ' ' => Some(' '),
                _ => None,
            }
        },
        _ => None,
    }
}

/// The character a digit key produces, shifted or not.
pub fn shift_digit(ch: char, shift: bool) -> (r: Option<char>)
    ensures
        r == spec_shift_digit(ch, shift),
{
    if !shift {
        return Some(ch);
    }
    match ch {
        '1' => Some('!'),
        '2' => Some('@'),
        '3' => Some('#'),
        '4' => Some('$'),
        '5' => Some('%'),
        '6' => Some('^'),
        '7' => Some('&'),
        '8' => Some('*'),
        '9' => Some('('),
        '0' => Some(')'),
        _ => None,
    }
}

/// The character a key press produces, given the held modifiers and the
/// caps-lock state.
pub fn key_to_codepoint(key: Key, mods: Modifiers, caps_lock: bool) -> (r: Option<char>)
    ensures
        r == spec_key_codepoint(key, mods, caps_lock),
{
    let shift = mods.shift;
    let uppercase = shift != caps_lock;
    match key {
        Key::Character(ch) => {
            if 'a' <= ch && ch <= 'z' {
                if uppercase {
                    Some(((ch as u8) - 32) as char)
                } else {
                    Some(ch)
                }
            } else if '0' <= ch && ch <= '9' {
                shift_digit(ch, shift)
            } else {
                match ch {
                    '-' => Some(if shift { '_' } else { '-' }),
                    '=' => Some(if shift { '+' } else { '=' }),
                    '[' => Some(if shift { '{' } else { '[' }),
                    ']' => Some(if shift { '}' } else { ']' }),
                    '\\' => Some(if shift { '|' } else { '\\' }),
                    ';' => Some(if shift { ':' } else { ';' }),
                    '\'' => Some(if shift { '"' } else { '\'' }),
                    '`' => Some(if shift { '~' } else { '`' }),
                    ',' => Some(if shift { '<' } else { ',' }),
                    '.' => Some(if shift { '>' } else { '.' }),
                    '/' => Some(if shift { '?' } else { '/' }),
                    ' ' => Some(' '),
                    _ => None,
                }
            }
        },
        _ => None,
    }
}

/// One absolute axis of an input device: its last value and its reported
/// range.
#[derive(Clone, Copy, Debug, PartialEq, Eq, Structural)]
pub struct AbsAxisState {
    pub value: i32,
    pub min: i32,
    pub max: i32,
}

/// Folds one absolute-axis event into the axis state: a known axis keeps
/// its range and takes the new value; an unknown axis starts at the new
/// value with the screen-derived fallback range.
pub fn update_axis_state(current: Option<AbsAxisState>, value: i32, fallback_max: i32) -> (r:
    AbsAxisState)
    ensures
        r == match current {
            Some(state) => AbsAxisState { value, min: state.min, max: state.max },
            None => AbsAxisState { value, min: 0, max: fallback_max },
        },
{
    match current {
        Some(state) => AbsAxisState { value, min: state.min, max: state.max },
        None => AbsAxisState { value, min: 0, max: fallback_max },
    }
}

/// Whether a device node name is an event device (`event*`).
pub fn is_event_device(name: &[u8]) -> (r: bool)
    ensures
        r == (name@.len() >= 5 && name@.subrange(0, 5) == seq![
            101u8,
            118u8,
            101u8,
            110u8,
            116u8,
        ]),
{
    if name.len() < 5 {
        return false;
    }
    let r = name[0] == 101 && name[1] == 118 && name[2] == 101 && name[3] == 110 && name[4]
        == 116;
    proof {
        if r {
            assert(name@.subrange(0, 5) =~= seq![101u8, 118u8, 101u8, 110u8, 116u8]);
        } else {
            assert(name@.subrange(0, 5) != seq![101u8, 118u8, 101u8, 110u8, 116u8]) by {
                if name@.subrange(0, 5) == seq![101u8, 118u8, 101u8, 110u8, 116u8] {
                    assert(name@[0] == name@.subrange(0, 5)[0]);
                    assert(name@[1] == name@.subrange(0, 5)[1]);
                    assert(name@[2] == name@.subrange(0, 5)[2]);
                    assert(name@[3] == name@.subrange(0, 5)[3]);
                    assert(name@[4] == name@.subrange(0, 5)[4]);
                }
            }
        }
    }
    r
}

} // verus!
