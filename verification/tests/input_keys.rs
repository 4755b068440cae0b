use scenic_driver_skia::keyboard::{AbsAxisState, is_event_device, key_to_codepoint,
    update_axis_state};
use scenic_driver_skia::input_translate::{
    Key, KeyLocation, MOD_CTRL, MOD_META, MOD_SHIFT, Modifiers, MouseButton, NamedKey,
    button_to_scenic, key_to_scenic, modifiers_to_mask,
};

#[test]
fn modifiers_to_mask_sets_bits() {
    let mask = modifiers_to_mask(Modifiers {
        shift: true,
        ctrl: true,
        alt: false,
        meta: true,
    });

    assert_eq!(mask, MOD_SHIFT | MOD_CTRL | MOD_META);
}

#[test]
fn key_to_scenic_maps_character() {
    assert_eq!(
        key_to_scenic(Key::Character('a'), KeyLocation::Standard),
        "key_a"
    );
    assert_eq!(
        key_to_scenic(Key::Character('A'), KeyLocation::Standard),
        "key_a"
    );
    assert_eq!(
        key_to_scenic(Key::Character('3'), KeyLocation::Standard),
        "key_3"
    );
}

#[test]
fn key_to_scenic_maps_numpad() {
    assert_eq!(
        key_to_scenic(Key::Character('1'), KeyLocation::Numpad),
        "key_kp1"
    );
    assert_eq!(
        key_to_scenic(Key::Character('.'), KeyLocation::Numpad),
        "key_kpdot"
    );
}

#[test]
fn key_to_scenic_maps_named_keys() {
    assert_eq!(
        key_to_scenic(Key::Named(NamedKey::Enter), KeyLocation::Standard),
        "key_enter"
    );
    assert_eq!(
        key_to_scenic(Key::Named(NamedKey::Enter), KeyLocation::Numpad),
        "key_kpenter"
    );
    assert_eq!(
        key_to_scenic(Key::Named(NamedKey::F5), KeyLocation::Standard),
        "key_f5"
    );
}

#[test]
fn key_to_scenic_maps_named_modifiers() {
    assert_eq!(
        key_to_scenic(Key::Named(NamedKey::AltGraph), KeyLocation::Standard),
        "key_rightalt"
    );
    assert_eq!(
        key_to_scenic(Key::Named(NamedKey::Super), KeyLocation::Standard),
        "key_meta"
    );
    assert_eq!(
        key_to_scenic(Key::Named(NamedKey::Meta), KeyLocation::Standard),
        "key_meta"
    );
}

#[test]
fn key_to_scenic_maps_modifier_location() {
    assert_eq!(
        key_to_scenic(Key::Named(NamedKey::Shift), KeyLocation::Left),
        "key_leftshift"
    );
    assert_eq!(
        key_to_scenic(Key::Named(NamedKey::Shift), KeyLocation::Right),
        "key_rightshift"
    );
    assert_eq!(
        key_to_scenic(Key::Named(NamedKey::Shift), KeyLocation::Standard),
        "key_shift"
    );
}

#[test]
fn key_to_scenic_maps_symbols_and_unknowns() {
    assert_eq!(
        key_to_scenic(Key::Character('-'), KeyLocation::Standard),
        "key_minus"
    );
    assert_eq!(
        key_to_scenic(Key::Unidentified, KeyLocation::Standard),
        "key_unknown"
    );
}

#[test]
fn button_to_scenic_maps_buttons() {
    assert_eq!(button_to_scenic(MouseButton::Left), "btn_left");
    assert_eq!(button_to_scenic(MouseButton::Right), "btn_right");
    assert_eq!(button_to_scenic(MouseButton::Middle), "btn_middle");
    assert_eq!(button_to_scenic(MouseButton::Other), "btn_unknown");
}

#[test]
fn key_to_codepoint_respects_shift_and_caps() {
    let mut mods = Modifiers::default();
    mods.shift = false;
    assert_eq!(key_to_codepoint(Key::Character('a'), mods, false), Some('a'));
    assert_eq!(key_to_codepoint(Key::Character('a'), mods, true), Some('A'));

    mods.shift = true;
    assert_eq!(key_to_codepoint(Key::Character('a'), mods, false), Some('A'));
    assert_eq!(key_to_codepoint(Key::Character('a'), mods, true), Some('a'));
}

#[test]
fn key_to_codepoint_shift_symbols() {
    let mut mods = Modifiers::default();
    mods.shift = true;
    assert_eq!(key_to_codepoint(Key::Character('1'), mods, false), Some('!'));
    assert_eq!(key_to_codepoint(Key::Character('='), mods, false), Some('+'));
    assert_eq!(key_to_codepoint(Key::Character('/'), mods, false), Some('?'));
}

#[test]
fn axis_state_keeps_its_range_on_update() {
    let first = update_axis_state(None, 512, 1023);
    assert_eq!(first, AbsAxisState { value: 512, min: 0, max: 1023 });
    let second = update_axis_state(Some(first), 600, 99);
    assert_eq!(second, AbsAxisState { value: 600, min: 0, max: 1023 });
}

#[test]
fn event_device_names_are_recognized() {
    assert!(is_event_device(b"event0"));
    assert!(is_event_device(b"event12"));
    assert!(!is_event_device(b"mouse0"));
    assert!(!is_event_device(b"ev"));
}
