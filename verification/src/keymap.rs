use vstd::prelude::*;

verus! {

/// Physical key identifiers the terminal reacts to: every key with a plain or
/// shifted character mapping, plus the control keys handled separately.
#[derive(Clone, Copy, PartialEq, Eq, Structural, Debug)]
pub enum Key {
    Key0,
    Key1,
    Key2,
    Key3,
    Key4,
    Key5,
    Key6,
    Key7,
    Key8,
    Key9,
    A,
    B,
    C,
    D,
    E,
    F,
    G,
    H,
    I,
    J,
    K,
    L,
    M,
    N,
    O,
    P,
    Q,
    R,
    S,
    T,
    U,
    V,
    W,
    X,
    Y,
    Z,
    Apostrophe,
    Backquote,
    Backslash,
    Comma,
    Equal,
    LeftBracket,
    Minus,
    Period,
    RightBracket,
    Semicolon,
    Slash,
    Space,
    NumPad0,
    NumPad1,
    NumPad2,
    NumPad3,
    NumPad4,
    NumPad5,
    NumPad6,
    NumPad7,
    NumPad8,
    NumPad9,
    NumPadDot,
    NumPadSlash,
    NumPadAsterisk,
    NumPadMinus,
    NumPadPlus,
    Enter,
    NumPadEnter,
    Backspace,
    LeftShift,
    RightShift,
}

/// The plain (unshifted) character table: letters map to lower case, digit
/// and punctuation keys to their unshifted symbols, numeric-pad keys to
/// digits and operators; control keys have no character.
pub open spec fn plain_char(key: Key) -> Option<char> {
    match key {
        Key::Key0 => Some('0'),
        Key::Key1 => Some('1'),
        Key::Key2 => Some('2'),
        Key::Key3 => Some('3'),
        Key::Key4 => Some('4'),
        Key::Key5 => Some('5'),
        Key::Key6 => Some('6'),
        Key::Key7 => Some('7'),
        Key::Key8 => Some('8'),
        Key::Key9 => Some('9'),
        Key::A => Some('a'),
        Key::B => Some('b'),
        Key::C => Some('c'),
        Key::D => Some('d'),
        Key::E => Some('e'),
        Key::F => Some('f'),
        Key::G => Some('g'),
        Key::H => Some('h'),
        Key::I => Some('i'),
        Key::J => Some('j'),
        Key::K => Some('k'),
        Key::L => Some('l'),
        Key::M => Some('m'),
        Key::N => Some('n'),
        Key::O => Some('o'),
        Key::P => Some('p'),
        Key::Q => Some('q'),
        Key::R => Some('r'),
        Key::S => Some('s'),
        Key::T => Some('t'),
        Key::U => Some('u'),
        Key::V => Some('v'),
        Key::W => Some('w'),
        Key::X => Some('x'),
        Key::Y => Some('y'),
        Key::Z => Some('z'),
        Key::Apostrophe => Some('\''),
        Key::Backquote => Some('`'),
        Key::Slash => Some('/'),
        Key::Backslash => Some('\\'),
        Key::Comma => Some(','),
        Key::Equal => Some('='),
        Key::LeftBracket => Some('['),
        Key::Minus => Some('-'),
        Key::Period => Some('.'),
        Key::RightBracket => Some(']'),
        Key::Semicolon => Some(';'),
        Key::Space => Some(' '),
        Key::NumPad0 => Some('0'),
        Key::NumPad1 => Some('1'),
        Key::NumPad2 => Some('2'),
        Key::NumPad3 => Some('3'),
        Key::NumPad4 => Some('4'),
        Key::NumPad5 => Some('5'),
        Key::NumPad6 => Some('6'),
        Key::NumPad7 => Some('7'),
        Key::NumPad8 => Some('8'),
        Key::NumPad9 => Some('9'),
        Key::NumPadDot => Some('.'),
        Key::NumPadSlash => Some('/'),
        Key::NumPadAsterisk => Some('*'),
        Key::NumPadMinus => Some('-'),
        Key::NumPadPlus => Some('+'),
        _ => None,
    }
}

/// The shifted character table: letters map to upper case, digit and
/// punctuation keys to their shifted symbols; keys it does not cover fall
/// back to the plain table.
pub open spec fn shifted_char(key: Key) -> Option<char> {
    match key {
        Key::A => Some('A'),
        Key::B => Some('B'),
        Key::C => Some('C'),
        Key::D => Some('D'),
        Key::E => Some('E'),
        Key::F => Some('F'),
        Key::G => Some('G'),
        Key::H => Some('H'),
        Key::I => Some('I'),
        Key::J => Some('J'),
        Key::K => Some('K'),
        Key::L => Some('L'),
        Key::M => Some('M'),
        Key::N => Some('N'),
        Key::O => Some('O'),
        Key::P => Some('P'),
        Key::Q => Some('Q'),
        Key::R => Some('R'),
        Key::S => Some('S'),
        Key::T => Some('T'),
        Key::U => Some('U'),
        Key::V => Some('V'),
        Key::W => Some('W'),
        Key::X => Some('X'),
        Key::Y => Some('Y'),
        Key::Z => Some('Z'),
        Key::Key0 => Some(')'),
        Key::Key1 => Some('!'),
        Key::Key2 => Some('@'),
        Key::Key3 => Some('#'),
        Key::Key4 => Some('$'),
        Key::Key5 => Some('%'),
        Key::Key6 => Some('^'),
        Key::Key7 => Some('&'),
        Key::Key8 => Some('*'),
        Key::Key9 => Some('('),
        Key::Minus => Some('_'),
        Key::Equal => Some('+'),
        Key::LeftBracket => Some('{'),
        Key::RightBracket => Some('}'),
        Key::Backslash => Some('|'),
        Key::Semicolon => Some(':'),
        Key::Apostrophe => Some('"'),
        Key::Backquote => Some('~'),
        Key::Comma => Some('<'),
        Key::Period => Some('>'),
        Key::Slash => Some('?'),
        _ => None,
    }
}

/// The character a keystroke produces under a given shift state: the shifted
/// table first when shift is active, with the plain table as fallback, and
/// the plain table alone otherwise.
pub open spec fn effective_char(key: Key, shift: bool) -> Option<char> {
    if shift {
        match shifted_char(key) {
            Some(c) => Some(c),
            None => plain_char(key),
        }
    } else {
        plain_char(key)
    }
}

/// Looks up the plain (unshifted) character for a key.
pub fn get_key_char(key: &Key) -> (r: Option<char>)
    ensures
        r == plain_char(*key),
{
    match key {
        Key::Key0 => Some('0'),
        Key::Key1 => Some('1'),
        Key::Key2 => Some('2'),
        Key::Key3 => Some('3'),
        Key::Key4 => Some('4'),
        Key::Key5 => Some('5'),
        Key::Key6 => Some('6'),
        Key::Key7 => Some('7'),
        Key::Key8 => Some('8'),
        Key::Key9 => Some('9'),
        Key::A => Some('a'),
        Key::B => Some('b'),
        Key::C => Some('c'),
        Key::D => Some('d'),
        Key::E => Some('e'),
        Key::F => Some('f'),
        Key::G => Some('g'),
        Key::H => Some('h'),
        Key::I => Some('i'),
        Key::J => Some('j'),
        Key::K => Some('k'),
        Key::L => Some('l'),
        Key::M => Some('m'),
        Key::N => Some('n'),
        Key::O => Some('o'),
        Key::P => Some('p'),
        Key::Q => Some('q'),
        Key::R => Some('r'),
        Key::S => Some('s'),
        Key::T => Some('t'),
        Key::U => Some('u'),
        Key::V => Some('v'),
        Key::W => Some('w'),
        Key::X => Some('x'),
        Key::Y => Some('y'),
        Key::Z => Some('z'),
        Key::Apostrophe => Some('\''),
        Key::Backquote => Some('`'),
        Key::Slash => Some('/'),
        Key::Backslash => Some('\\'),
        Key::Comma => Some(','),
        Key::Equal => Some('='),
        Key::LeftBracket => Some('['),
        Key::Minus => Some('-'),
        Key::Period => Some('.'),
        Key::RightBracket => Some(']'),
        Key::Semicolon => Some(';'),
        Key::Space => Some(' '),
        Key::NumPad0 => Some('0'),
        Key::NumPad1 => Some('1'),
        Key::NumPad2 => Some('2'),
        Key::NumPad3 => Some('3'),
        Key::NumPad4 => Some('4'),
        Key::NumPad5 => Some('5'),
        Key::NumPad6 => Some('6'),
        Key::NumPad7 => Some('7'),
        Key::NumPad8 => Some('8'),
        Key::NumPad9 => Some('9'),
        Key::NumPadDot => Some('.'),
        Key::NumPadSlash => Some('/'),
        Key::NumPadAsterisk => Some('*'),
        Key::NumPadMinus => Some('-'),
        Key::NumPadPlus => Some('+'),
        _ => None,
    }
}

/// Looks up the shifted character for a key; `None` where the shifted table
/// has no entry.
pub fn get_key_char_shift(key: &Key) -> (r: Option<char>)
    ensures
        r == shifted_char(*key),
{
    match key {
        Key::A => Some('A'),
        Key::B => Some('B'),
        Key::C => Some('C'),
        Key::D => Some('D'),
        Key::E => Some('E'),
        Key::F => Some('F'),
        Key::G => Some('G'),
        Key::H => Some('H'),
        Key::I => Some('I'),
        Key::J => Some('J'),
        Key::K => Some('K'),
        Key::L => Some('L'),
        Key::M => Some('M'),
        Key::N => Some('N'),
        Key::O => Some('O'),
        Key::P => Some('P'),
        Key::Q => Some('Q'),
        Key::R => Some('R'),
        Key::S => Some('S'),
        Key::T => Some('T'),
        Key::U => Some('U'),
        Key::V => Some('V'),
        Key::W => Some('W'),
        Key::X => Some('X'),
        Key::Y => Some('Y'),
        Key::Z => Some('Z'),
        Key::Key0 => Some(')'),
        Key::Key1 => Some('!'),
        Key::Key2 => Some('@'),
        Key::Key3 => Some('#'),
        Key::Key4 => Some('$'),
        Key::Key5 => Some('%'),
        Key::Key6 => Some('^'),
        Key::Key7 => Some('&'),
        Key::Key8 => Some('*'),
        Key::Key9 => Some('('),
        Key::Minus => Some('_'),
        Key::Equal => Some('+'),
        Key::LeftBracket => Some('{'),
        Key::RightBracket => Some('}'),
        Key::Backslash => Some('|'),
        Key::Semicolon => Some(':'),
        Key::Apostrophe => Some('"'),
        Key::Backquote => Some('~'),
        Key::Comma => Some('<'),
        Key::Period => Some('>'),
        Key::Slash => Some('?'),
        _ => None,
    }
}

/// Resolves a keystroke to a character under the current shift state: the
/// shifted table first when shift is active, falling back to the plain table.
pub fn map_key(key: &Key, shift: bool) -> (r: Option<char>)
    ensures
        r == effective_char(*key, shift),
{
    if shift {
        let shifted = get_key_char_shift(key);
        if shifted.is_some() {
            shifted
        } else {
            get_key_char(key)
        }
    } else {
        get_key_char(key)
    }
}

/// Shift never loses a key: whenever the plain table maps a key, the
/// effective mapping under an active shift state maps it too (through the
/// shifted entry or the plain fallback), and with shift inactive the
/// effective mapping is exactly the plain table.
pub proof fn lemma_shift_falls_back(key: Key)
    ensures
        plain_char(key) is Some ==> effective_char(key, true) is Some,
        effective_char(key, false) == plain_char(key),
{
}

} // verus!
