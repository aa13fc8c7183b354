use pixel_shell::keymap::{get_key_char, get_key_char_shift, map_key, Key};

#[test]
fn plain_letter_maps_to_lowercase() {
    assert_eq!(get_key_char(&Key::A), Some('a'));
    assert_eq!(get_key_char(&Key::Z), Some('z'));
}

#[test]
fn shifted_letter_maps_to_uppercase() {
    assert_eq!(get_key_char_shift(&Key::A), Some('A'));
    assert_eq!(get_key_char_shift(&Key::Z), Some('Z'));
}

#[test]
fn digit_keys_map_plain_and_shifted() {
    assert_eq!(get_key_char(&Key::Key1), Some('1'));
    assert_eq!(get_key_char_shift(&Key::Key1), Some('!'));
    assert_eq!(get_key_char(&Key::Key0), Some('0'));
    assert_eq!(get_key_char_shift(&Key::Key0), Some(')'));
}

#[test]
fn shifted_space_falls_back_to_plain() {
    assert_eq!(get_key_char_shift(&Key::Space), None);
    assert_eq!(get_key_char(&Key::Space), Some(' '));
    assert_eq!(map_key(&Key::Space, true), Some(' '));
}

#[test]
fn shift_state_selects_table() {
    assert_eq!(map_key(&Key::H, false), Some('h'));
    assert_eq!(map_key(&Key::H, true), Some('H'));
    assert_eq!(map_key(&Key::Minus, false), Some('-'));
    assert_eq!(map_key(&Key::Minus, true), Some('_'));
}

#[test]
fn numpad_keys_map_to_digits_and_operators() {
    assert_eq!(get_key_char(&Key::NumPad7), Some('7'));
    assert_eq!(get_key_char(&Key::NumPadPlus), Some('+'));
    assert_eq!(get_key_char(&Key::NumPadAsterisk), Some('*'));
    // the shifted table has no numpad entries: shift falls back
    assert_eq!(get_key_char_shift(&Key::NumPad7), None);
    assert_eq!(map_key(&Key::NumPad7, true), Some('7'));
}

#[test]
fn control_keys_have_no_character() {
    assert_eq!(get_key_char(&Key::Enter), None);
    assert_eq!(get_key_char(&Key::NumPadEnter), None);
    assert_eq!(get_key_char(&Key::Backspace), None);
    assert_eq!(map_key(&Key::LeftShift, true), None);
    assert_eq!(map_key(&Key::RightShift, false), None);
}
