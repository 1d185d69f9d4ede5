//! Key codes and the keyboard operations.

use crate::action::{no_keys, one_key, Action};
use vstd::prelude::*;
use vstd::std_specs::convert::FromSpecImpl;
use vstd::string::*;

verus! {

/// The keys that a slot of a keyboard record can hold. `NONE` leaves the slot empty.
#[allow(non_camel_case_types)]
#[derive(Clone, Copy, Debug, PartialEq, Eq, Structural)]
pub enum Key {
    A,
    B,
    C,
    D,
    E,
    F,
    G,
    H,
    I,
    J,
    K,
    L,
    M,
    N,
    O,
    P,
    Q,
    R,
    S,
    T,
    U,
    V,
    W,
    X,
    Y,
    Z,
    N1,
    N2,
    N3,
    N4,
    N5,
    N6,
    N7,
    N8,
    N9,
    N0,
    Enter,
    Esc,
    BackSpace,
    Tab,
    Space,
    Minus,
    Equal,
    SquareBracketLeft,
    SquareBracketRight,
    BackSlash,
    BackSlash_,
    Column,
    Quote,
    BackTick,
    Comma,
    Period,
    Slash,
    Cap,
    F1,
    F2,
    F3,
    F4,
    F5,
    F6,
    F7,
    F8,
    F9,
    F10,
    F11,
    F12,
    Snapshot,
    ScrollLock,
    Pause,
    Insert,
    Home,
    PageUp,
    Del,
    End,
    PageDown,
    Right,
    Left,
    Down,
    Up,
    Numlock,
    NumpadDiv,
    NumpadMul,
    NumpadMinus,
    NumpadPlus,
    NumpadEnter,
    Numpad1,
    Numpad2,
    Numpad3,
    Numpad4,
    Numpad5,
    Numpad6,
    Numpad7,
    Numpad8,
    Numpad9,
    Numpad0,
    NumpadDec,
    Apps,
    F13,
    F14,
    F15,
    F16,
    F17,
    F18,
    F19,
    F20,
    F21,
    F22,
    F23,
    F24,
    Rwin,
    F24_,
    Lctrl,
    Lshift,
    Lalt,
    Lwin,
    Rctrl,
    Rshift,
    Ralt,
    Rwin_,
    NONE,
}

impl Key {
    /// The code that stands for the key in a slot of a keyboard record.
    pub open spec fn code(self) -> u8 {
        match self {
            Key::A => 0x04,
            Key::B => 0x05,
            Key::C => 0x06,
            Key::D => 0x07,
            Key::E => 0x08,
            Key::F => 0x09,
            Key::G => 0x0A,
            Key::H => 0x0B,
            Key::I => 0x0C,
            Key::J => 0x0D,
            Key::K => 0x0E,
            Key::L => 0x0F,
            Key::M => 0x10,
            Key::N => 0x11,
            Key::O => 0x12,
            Key::P => 0x13,
            Key::Q => 0x14,
            Key::R => 0x15,
            Key::S => 0x16,
            Key::T => 0x17,
            Key::U => 0x18,
            Key::V => 0x19,
            Key::W => 0x1A,
            Key::X => 0x1B,
            Key::Y => 0x1C,
            Key::Z => 0x1D,
            Key::N1 => 0x1E,
            Key::N2 => 0x1F,
            Key::N3 => 0x20,
            Key::N4 => 0x21,
            Key::N5 => 0x22,
            Key::N6 => 0x23,
            Key::N7 => 0x24,
            Key::N8 => 0x25,
            Key::N9 => 0x26,
            Key::N0 => 0x27,
            Key::Enter => 0x28,
            Key::Esc => 0x29,
            Key::BackSpace => 0x2A,
            Key::Tab => 0x2B,
            Key::Space => 0x2C,
            Key::Minus => 0x2D,
            Key::Equal => 0x2E,
            Key::SquareBracketLeft => 0x2F,
            Key::SquareBracketRight => 0x30,
            Key::BackSlash => 0x31,
            Key::BackSlash_ => 0x32,
            Key::Column => 0x33,
            Key::Quote => 0x34,
            Key::BackTick => 0x35,
            Key::Comma => 0x36,
            Key::Period => 0x37,
            Key::Slash => 0x38,
            Key::Cap => 0x39,
            Key::F1 => 0x3A,
            Key::F2 => 0x3B,
            Key::F3 => 0x3C,
            Key::F4 => 0x3D,
            Key::F5 => 0x3E,
            Key::F6 => 0x3F,
            Key::F7 => 0x40,
            Key::F8 => 0x41,
            Key::F9 => 0x42,
            Key::F10 => 0x43,
            Key::F11 => 0x44,
            Key::F12 => 0x45,
            Key::Snapshot => 0x46,
            Key::ScrollLock => 0x47,
            Key::Pause => 0x48,
            Key::Insert => 0x49,
            Key::Home => 0x4A,
            Key::PageUp => 0x4B,
            Key::Del => 0x4C,
            Key::End => 0x4D,
            Key::PageDown => 0x4E,
            Key::Right => 0x4F,
            Key::Left => 0x50,
            Key::Down => 0x51,
            Key::Up => 0x52,
            Key::Numlock => 0x53,
            Key::NumpadDiv => 0x54,
            Key::NumpadMul => 0x55,
            Key::NumpadMinus => 0x56,
            Key::NumpadPlus => 0x57,
            Key::NumpadEnter => 0x58,
            Key::Numpad1 => 0x59,
            Key::Numpad2 => 0x5A,
            Key::Numpad3 => 0x5B,
            Key::Numpad4 => 0x5C,
            Key::Numpad5 => 0x5D,
            Key::Numpad6 => 0x5E,
            Key::Numpad7 => 0x5F,
            Key::Numpad8 => 0x60,
            Key::Numpad9 => 0x61,
            Key::Numpad0 => 0x62,
            Key::NumpadDec => 0x63,
            Key::Apps => 0x65,
            Key::F13 => 0x68,
            Key::F14 => 0x69,
            Key::F15 => 0x6A,
            Key::F16 => 0x6B,
            Key::F17 => 0x6C,
            Key::F18 => 0x6D,
            Key::F19 => 0x6E,
            Key::F20 => 0x6F,
            Key::F21 => 0x70,
            Key::F22 => 0x71,
            Key::F23 => 0x72,
            Key::F24 => 0x73,
            Key::Rwin => 0x8C,
            Key::F24_ => 0x94,
            Key::Lctrl => 0xE0,
            Key::Lshift => 0xE1,
            Key::Lalt => 0xE2,
            Key::Lwin => 0xE3,
            Key::Rctrl => 0xE4,
            Key::Rshift => 0xE5,
            Key::Ralt => 0xE6,
            Key::Rwin_ => 0xE7,
            Key::NONE => 0x00,
        }
    }
}

impl From<Key> for u8 {
    fn from(button: Key) -> (code: u8) {
        match button {
            Key::A => 0x04,
            Key::B => 0x05,
            Key::C => 0x06,
            Key::D => 0x07,
            Key::E => 0x08,
            Key::F => 0x09,
            Key::G => 0x0A,
            Key::H => 0x0B,
            Key::I => 0x0C,
            Key::J => 0x0D,
            Key::K => 0x0E,
            Key::L => 0x0F,
            Key::M => 0x10,
            Key::N => 0x11,
            Key::O => 0x12,
            Key::P => 0x13,
            Key::Q => 0x14,
            Key::R => 0x15,
            Key::S => 0x16,
            Key::T => 0x17,
            Key::U => 0x18,
            Key::V => 0x19,
            Key::W => 0x1A,
            Key::X => 0x1B,
            Key::Y => 0x1C,
            Key::Z => 0x1D,
            Key::N1 => 0x1E,
            Key::N2 => 0x1F,
            Key::N3 => 0x20,
            Key::N4 => 0x21,
            Key::N5 => 0x22,
            Key::N6 => 0x23,
            Key::N7 => 0x24,
            Key::N8 => 0x25,
            Key::N9 => 0x26,
            Key::N0 => 0x27,
            Key::Enter => 0x28,
            Key::Esc => 0x29,
            Key::BackSpace => 0x2A,
            Key::Tab => 0x2B,
            Key::Space => 0x2C,
            Key::Minus => 0x2D,
            Key::Equal => 0x2E,
            Key::SquareBracketLeft => 0x2F,
            Key::SquareBracketRight => 0x30,
            Key::BackSlash => 0x31,
            Key::BackSlash_ => 0x32,
            Key::Column => 0x33,
            Key::Quote => 0x34,
            Key::BackTick => 0x35,
            Key::Comma => 0x36,
            Key::Period => 0x37,
            Key::Slash => 0x38,
            Key::Cap => 0x39,
            Key::F1 => 0x3A,
            Key::F2 => 0x3B,
            Key::F3 => 0x3C,
            Key::F4 => 0x3D,
            Key::F5 => 0x3E,
            Key::F6 => 0x3F,
            Key::F7 => 0x40,
            Key::F8 => 0x41,
            Key::F9 => 0x42,
            Key::F10 => 0x43,
            Key::F11 => 0x44,
            Key::F12 => 0x45,
            Key::Snapshot => 0x46,
            Key::ScrollLock => 0x47,
            Key::Pause => 0x48,
            Key::Insert => 0x49,
            Key::Home => 0x4A,
            Key::PageUp => 0x4B,
            Key::Del => 0x4C,
            Key::End => 0x4D,
            Key::PageDown => 0x4E,
            Key::Right => 0x4F,
            Key::Left => 0x50,
            Key::Down => 0x51,
            Key::Up => 0x52,
            Key::Numlock => 0x53,
            Key::NumpadDiv => 0x54,
            Key::NumpadMul => 0x55,
            Key::NumpadMinus => 0x56,
            Key::NumpadPlus => 0x57,
            Key::NumpadEnter => 0x58,
            Key::Numpad1 => 0x59,
            Key::Numpad2 => 0x5A,
            Key::Numpad3 => 0x5B,
            Key::Numpad4 => 0x5C,
            Key::Numpad5 => 0x5D,
            Key::Numpad6 => 0x5E,
            Key::Numpad7 => 0x5F,
            Key::Numpad8 => 0x60,
            Key::Numpad9 => 0x61,
            Key::Numpad0 => 0x62,
            Key::NumpadDec => 0x63,
            Key::Apps => 0x65,
            Key::F13 => 0x68,
            Key::F14 => 0x69,
            Key::F15 => 0x6A,
            Key::F16 => 0x6B,
            Key::F17 => 0x6C,
            Key::F18 => 0x6D,
            Key::F19 => 0x6E,
            Key::F20 => 0x6F,
            Key::F21 => 0x70,
            Key::F22 => 0x71,
            Key::F23 => 0x72,
            Key::F24 => 0x73,
            Key::Rwin => 0x8C,
            Key::F24_ => 0x94,
            Key::Lctrl => 0xE0,
            Key::Lshift => 0xE1,
            Key::Lalt => 0xE2,
            Key::Lwin => 0xE3,
            Key::Rctrl => 0xE4,
            Key::Rshift => 0xE5,
            Key::Ralt => 0xE6,
            Key::Rwin_ => 0xE7,
            Key::NONE => 0x00,
        }
    }
}

impl FromSpecImpl<Key> for u8 {
    open spec fn obeys_from_spec() -> bool {
        true
    }

    open spec fn from_spec(button: Key) -> u8 {
        button.code()
    }
}

/// The key that carries a character on a US keyboard, with or without shift.
pub open spec fn key_of(c: char) -> Option<Key> {
    match c {
            'a' | 'A' => Some(Key::A),
            'b' | 'B' => Some(Key::B),
            'c' | 'C' => Some(Key::C),
            'd' | 'D' => Some(Key::D),
            'e' | 'E' => Some(Key::E),
            'f' | 'F' => Some(Key::F),
            'g' | 'G' => Some(Key::G),
            'h' | 'H' => Some(Key::H),
            'i' | 'I' => Some(Key::I),
            'j' | 'J' => Some(Key::J),
            'k' | 'K' => Some(Key::K),
            'l' | 'L' => Some(Key::L),
            'm' | 'M' => Some(Key::M),
            'n' | 'N' => Some(Key::N),
            'o' | 'O' => Some(Key::O),
            'p' | 'P' => Some(Key::P),
            'q' | 'Q' => Some(Key::Q),
            'r' | 'R' => Some(Key::R),
            's' | 'S' => Some(Key::S),
            't' | 'T' => Some(Key::T),
            'u' | 'U' => Some(Key::U),
            'v' | 'V' => Some(Key::V),
            'w' | 'W' => Some(Key::W),
            'x' | 'X' => Some(Key::X),
            'y' | 'Y' => Some(Key::Y),
            'z' | 'Z' => Some(Key::Z),
            '1' | '!' => Some(Key::N1),
            '2' | '@' => Some(Key::N2),
            '3' | '#' => Some(Key::N3),
            '4' | '$' => Some(Key::N4),
            '5' | '%' => Some(Key::N5),
            '6' | '^' => Some(Key::N6),
            '7' | '&' => Some(Key::N7),
            '8' | '*' => Some(Key::N8),
            '9' | '(' => Some(Key::N9),
            '0' | ')' => Some(Key::N0),
            '-' | '_' => Some(Key::Minus),
            '=' | '+' => Some(Key::Equal),
            '[' | '{' => Some(Key::SquareBracketLeft),
            ']' | '}' => Some(Key::SquareBracketRight),
            '\\' | '|' => Some(Key::BackSlash),
            ';' | ':' => Some(Key::Column),
            '\'' | '"' => Some(Key::Quote),
            '`' | '~' => Some(Key::BackTick),
            ',' | '<' => Some(Key::Comma),
            '.' | '>' => Some(Key::Period),
            '/' | '?' => Some(Key::Slash),
            ' ' => Some(Key::Space),
            '\n' => Some(Key::Enter),
            '\t' => Some(Key::Tab),
            _ => None,
    }
}

/// Whether a character takes the shift key on a US keyboard.
pub open spec fn is_shifted(c: char) -> bool {
    ('A' <= c && c <= 'Z') || match c {
        '!' | '@' | '#' | '$' | '%' | '^' | '&' | '*' | '(' | ')' | '_' | '+' | '{' | '}'
        | '|' | ':' | '"' | '~' | '<' | '>' | '?' => true,
        _ => false,
    }
}

/// The command that holds the key of a character, together with shift where the
/// character takes it.
pub open spec fn key_down(key: Key, shifted: bool) -> Action {
    if shifted {
        Action::Keyboard {
            button1: Key::Lshift,
            button2: key,
            button3: Key::NONE,
            button4: Key::NONE,
            button5: Key::NONE,
            button6: Key::NONE,
        }
    } else {
        one_key(key)
    }
}

/// Whether every character of a text has a key.
pub open spec fn can_type(text: Seq<char>) -> bool {
    forall|i: int| 0 <= i < text.len() ==> (#[trigger] key_of(text[i])) is Some
}

/// The actions that type a text of which every character has a key: for each
/// character in turn the press, the release, and a pause of `millis` milliseconds.
pub open spec fn typing(text: Seq<char>, millis: u64) -> Seq<Action> {
    Seq::new(
        3 * text.len(),
        |i: int|
            if i % 3 == 0 {
                key_down(key_of(text[i / 3]).unwrap(), is_shifted(text[i / 3]))
            } else if i % 3 == 1 {
                no_keys()
            } else {
                Action::Sleep { millis }
            },
    )
}

/// A character that no key carries, and its place in the text.
#[derive(Clone, Copy, Debug, PartialEq, Eq, Structural)]
pub struct Untypable {
    /// The character.
    pub character: char,
    /// How many characters of the text precede it.
    pub index: usize,
}

/// The key that carries a character on a US keyboard, and whether it takes shift.
pub fn lookup(c: char) -> (found: Option<(Key, bool)>)
    ensures
        found is Some <==> key_of(c) is Some,
        found matches Some(pair) ==> key_of(c) == Some(pair.0) && pair.1 == is_shifted(c),
{
    let shifted = ('A' <= c && c <= 'Z') || match c {
        '!' | '@' | '#' | '$' | '%' | '^' | '&' | '*' | '(' | ')' | '_' | '+' | '{' | '}'
        | '|' | ':' | '"' | '~' | '<' | '>' | '?' => true,
        _ => false,
    };
    let key = match c {
        'a' | 'A' => Some(Key::A),
        'b' | 'B' => Some(Key::B),
        'c' | 'C' => Some(Key::C),
        'd' | 'D' => Some(Key::D),
        'e' | 'E' => Some(Key::E),
        'f' | 'F' => Some(Key::F),
        'g' | 'G' => Some(Key::G),
        'h' | 'H' => Some(Key::H),
        'i' | 'I' => Some(Key::I),
        'j' | 'J' => Some(Key::J),
        'k' | 'K' => Some(Key::K),
        'l' | 'L' => Some(Key::L),
        'm' | 'M' => Some(Key::M),
        'n' | 'N' => Some(Key::N),
        'o' | 'O' => Some(Key::O),
        'p' | 'P' => Some(Key::P),
        'q' | 'Q' => Some(Key::Q),
        'r' | 'R' => Some(Key::R),
        's' | 'S' => Some(Key::S),
        't' | 'T' => Some(Key::T),
        'u' | 'U' => Some(Key::U),
        'v' | 'V' => Some(Key::V),
        'w' | 'W' => Some(Key::W),
        'x' | 'X' => Some(Key::X),
        'y' | 'Y' => Some(Key::Y),
        'z' | 'Z' => Some(Key::Z),
        '1' | '!' => Some(Key::N1),
        '2' | '@' => Some(Key::N2),
        '3' | '#' => Some(Key::N3),
        '4' | '$' => Some(Key::N4),
        '5' | '%' => Some(Key::N5),
        '6' | '^' => Some(Key::N6),
        '7' | '&' => Some(Key::N7),
        '8' | '*' => Some(Key::N8),
        '9' | '(' => Some(Key::N9),
        '0' | ')' => Some(Key::N0),
        '-' | '_' => Some(Key::Minus),
        '=' | '+' => Some(Key::Equal),
        '[' | '{' => Some(Key::SquareBracketLeft),
        ']' | '}' => Some(Key::SquareBracketRight),
        '\\' | '|' => Some(Key::BackSlash),
        ';' | ':' => Some(Key::Column),
        '\'' | '"' => Some(Key::Quote),
        '`' | '~' => Some(Key::BackTick),
        ',' | '<' => Some(Key::Comma),
        '.' | '>' => Some(Key::Period),
        '/' | '?' => Some(Key::Slash),
        ' ' => Some(Key::Space),
        '\n' => Some(Key::Enter),
        '\t' => Some(Key::Tab),
        _ => None,
    };
    match key {
        Some(key) => Some((key, shifted)),
        None => None,
    }
}

/// The keyboard operations. Each hands out what the driver is to send and when.
#[derive(Clone, Copy, Debug)]
pub struct Keyboard {}

impl Keyboard {
    /// Creates a new [`Keyboard`].
    pub fn new() -> Self {
        Keyboard {  }
    }

    /// Presses `button` and holds it: the first slot takes the key, the others stay empty.
    pub fn press(&self, button: Key) -> (action: Action)
        ensures
            action == one_key(button),
    {
        Action::Keyboard {
            button1: button,
            button2: Key::NONE,
            button3: Key::NONE,
            button4: Key::NONE,
            button5: Key::NONE,
            button6: Key::NONE,
        }
    }

    /// Releases every key: all six slots are empty.
    pub fn release(&self) -> (action: Action)
        ensures
            action == no_keys(),
    {
        self.press(Key::NONE)
    }

    /// Presses `button`, holds it for `millis` milliseconds, and releases it.
    pub fn press_and_release(&self, button: Key, millis: u64) -> (script: Vec<Action>)
        ensures
            script@ == seq![one_key(button), Action::Sleep { millis }, no_keys()],
    {
        vec![self.press(button), Action::Sleep { millis }, self.release()]
    }

    /// Presses up to six keys at once, one in each slot.
    pub fn multi_press(
        &self,
        button1: Key,
        button2: Key,
        button3: Key,
        button4: Key,
        button5: Key,
        button6: Key,
    ) -> (action: Action)
        ensures
            action == (Action::Keyboard { button1, button2, button3, button4, button5, button6 }),
    {
        Action::Keyboard { button1, button2, button3, button4, button5, button6 }
    }

    /// Types a text: for each character in turn its key is pressed, with shift where
    /// the character takes it, and released, and `millis` milliseconds pass. A text
    /// with a character that no key carries is refused as a whole, with the first such
    /// character.
    pub fn type_string(&self, text: &str, millis: u64) -> (result: Result<Vec<Action>, Untypable>)
        ensures
            result is Ok <==> can_type(text@),
            result matches Ok(script) ==> script@ == typing(text@, millis),
            result matches Err(refused) ==> {
                &&& refused.index < text@.len()
                &&& refused.character == text@[refused.index as int]
                &&& key_of(refused.character) is None
                &&& can_type(text@.take(refused.index as int))
            },
    {
        let len = text.unicode_len();
        let mut script: Vec<Action> = Vec::new();
        let mut i: usize = 0;
        while i < len
            invariant
                i <= len,
                len == text@.len(),
                can_type(text@.take(i as int)),
                script@ == typing(text@.take(i as int), millis),
            decreases len - i,
        {
            let c = text.get_char(i);
            match lookup(c) {
                Some((key, shifted)) => {
                    if shifted {
                        script.push(
                            Action::Keyboard {
                                button1: Key::Lshift,
                                button2: key,
                                button3: Key::NONE,
                                button4: Key::NONE,
                                button5: Key::NONE,
                                button6: Key::NONE,
                            },
                        );
                    } else {
                        script.push(self.press(key));
                    }
                    script.push(self.release());
                    script.push(Action::Sleep { millis });
                },
                None => {
                    return Err(Untypable { character: c, index: i });
                },
            }
            i = i + 1;
        }
        assert(text@.take(len as int) =~= text@);
        Ok(script)
    }
}

} // verus!
