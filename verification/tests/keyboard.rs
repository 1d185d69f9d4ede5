use logitech_cve::action::Action;
use logitech_cve::device::{Device, DevicePath, Probe};
use logitech_cve::keyboard::{lookup, Key, Keyboard, Untypable};

fn keys(
    button1: Key,
    button2: Key,
    button3: Key,
    button4: Key,
    button5: Key,
    button6: Key,
) -> Action {
    Action::Keyboard { button1, button2, button3, button4, button5, button6 }
}

fn one(button: Key) -> Action {
    keys(button, Key::NONE, Key::NONE, Key::NONE, Key::NONE, Key::NONE)
}

/// Sends the keyboard commands of a script through an open channel and returns the
/// records that reach the device.
fn records(script: &[Action]) -> Vec<Vec<u8>> {
    let mut device = Device::new();
    assert_eq!(device.opened(DevicePath::First, 0, 0x1d4), Probe::Opened);
    let mut sent = Vec::new();
    for action in script {
        if let Action::Keyboard { button1, button2, button3, button4, button5, button6 } = *action {
            let request =
                device.call_keyboard(button1, button2, button3, button4, button5, button6);
            assert_eq!(request.handle, 0x1d4);
            assert_eq!(request.io_control_code, 0x002A_200C);
            sent.push(request.input_buffer);
            assert_eq!(device.completed(0), None);
        }
    }
    sent
}

#[test]
fn keyboard_press_and_release() {
    let keyboard = Keyboard::new();

    let script = vec![keyboard.press(Key::A), keyboard.release()];
    assert_eq!(script, vec![one(Key::A), one(Key::NONE)]);
    assert_eq!(records(&script), vec![vec![0, 0, 4, 0, 0, 0, 0, 0], vec![0; 8]]);
}

#[test]
fn multi_press() {
    let keyboard = Keyboard::new();

    let script = vec![
        keyboard.multi_press(Key::A, Key::B, Key::C, Key::D, Key::E, Key::F),
        keyboard.release(),
    ];
    assert_eq!(
        script,
        vec![
            keys(Key::A, Key::B, Key::C, Key::D, Key::E, Key::F),
            keys(Key::NONE, Key::NONE, Key::NONE, Key::NONE, Key::NONE, Key::NONE),
        ]
    );
    assert_eq!(records(&script), vec![vec![0, 0, 4, 5, 6, 7, 8, 9], vec![0; 8]]);
}

#[test]
fn press_and_release_holds_for_the_given_time() {
    let keyboard = Keyboard::new();
    let script = keyboard.press_and_release(Key::Enter, 100);
    assert_eq!(script, vec![one(Key::Enter), Action::Sleep { millis: 100 }, one(Key::NONE)]);
    assert_eq!(records(&script), vec![vec![0, 0, 0x28, 0, 0, 0, 0, 0], vec![0; 8]]);
}

#[test]
fn press_and_release_without_hold() {
    let keyboard = Keyboard::new();
    let script = keyboard.press_and_release(Key::Z, 0);
    assert_eq!(script, vec![one(Key::Z), Action::Sleep { millis: 0 }, one(Key::NONE)]);
}

#[test]
fn press_of_none_is_release() {
    let keyboard = Keyboard::new();
    assert_eq!(keyboard.press(Key::NONE), keyboard.release());
}

#[test]
fn key_codes() {
    assert_eq!(u8::from(Key::NONE), 0x00);
    assert_eq!(u8::from(Key::A), 0x04);
    assert_eq!(u8::from(Key::Z), 0x1D);
    assert_eq!(u8::from(Key::N1), 0x1E);
    assert_eq!(u8::from(Key::N0), 0x27);
    assert_eq!(u8::from(Key::Enter), 0x28);
    assert_eq!(u8::from(Key::Esc), 0x29);
    assert_eq!(u8::from(Key::BackSpace), 0x2A);
    assert_eq!(u8::from(Key::Tab), 0x2B);
    assert_eq!(u8::from(Key::Space), 0x2C);
    assert_eq!(u8::from(Key::BackSlash), 0x31);
    assert_eq!(u8::from(Key::BackSlash_), 0x32);
    assert_eq!(u8::from(Key::Comma), 0x36);
    assert_eq!(u8::from(Key::Cap), 0x39);
    assert_eq!(u8::from(Key::F1), 0x3A);
    assert_eq!(u8::from(Key::F12), 0x45);
    assert_eq!(u8::from(Key::Right), 0x4F);
    assert_eq!(u8::from(Key::Up), 0x52);
    assert_eq!(u8::from(Key::Numpad0), 0x62);
    assert_eq!(u8::from(Key::NumpadDec), 0x63);
    assert_eq!(u8::from(Key::Apps), 0x65);
    assert_eq!(u8::from(Key::F13), 0x68);
    assert_eq!(u8::from(Key::F24), 0x73);
    assert_eq!(u8::from(Key::Rwin), 0x8C);
    assert_eq!(u8::from(Key::F24_), 0x94);
    assert_eq!(u8::from(Key::Lctrl), 0xE0);
    assert_eq!(u8::from(Key::Lshift), 0xE1);
    assert_eq!(u8::from(Key::Lalt), 0xE2);
    assert_eq!(u8::from(Key::Lwin), 0xE3);
    assert_eq!(u8::from(Key::Rctrl), 0xE4);
    assert_eq!(u8::from(Key::Rshift), 0xE5);
    assert_eq!(u8::from(Key::Ralt), 0xE6);
    assert_eq!(u8::from(Key::Rwin_), 0xE7);
}

#[test]
fn letter_codes_are_consecutive() {
    let letters = [
        Key::A, Key::B, Key::C, Key::D, Key::E, Key::F, Key::G, Key::H, Key::I, Key::J, Key::K,
        Key::L, Key::M, Key::N, Key::O, Key::P, Key::Q, Key::R, Key::S, Key::T, Key::U, Key::V,
        Key::W, Key::X, Key::Y, Key::Z,
    ];
    for (i, key) in letters.iter().enumerate() {
        assert_eq!(u8::from(*key), 4 + i as u8);
    }
}

/// The key events that a run of keyboard commands causes: a key goes down when a
/// command holds it and the one before did not, and up the other way round.
fn key_events(script: &[Action]) -> Vec<(Key, &'static str)> {
    let mut held: Vec<Key> = Vec::new();
    let mut events = Vec::new();
    for action in script {
        if let Action::Keyboard { button1, button2, button3, button4, button5, button6 } = *action {
            let slots = [button1, button2, button3, button4, button5, button6];
            let now: Vec<Key> = slots.iter().copied().filter(|key| *key != Key::NONE).collect();
            for key in &now {
                if !held.contains(key) {
                    events.push((*key, "DOWN"));
                }
            }
            for key in &held {
                if !now.contains(key) {
                    events.push((*key, "UP"));
                }
            }
            held = now;
        }
    }
    events
}

#[test]
fn type_string() {
    let keyboard = Keyboard::new();

    let script = keyboard.type_string("Hello, World!", 50).expect("Should be OK");
    assert_eq!(
        key_events(&script),
        vec![
            (Key::Lshift, "DOWN"),
            (Key::H, "DOWN"),
            (Key::Lshift, "UP"),
            (Key::H, "UP"),
            (Key::E, "DOWN"),
            (Key::E, "UP"),
            (Key::L, "DOWN"),
            (Key::L, "UP"),
            (Key::L, "DOWN"),
            (Key::L, "UP"),
            (Key::O, "DOWN"),
            (Key::O, "UP"),
            (Key::Comma, "DOWN"),
            (Key::Comma, "UP"),
            (Key::Space, "DOWN"),
            (Key::Space, "UP"),
            (Key::Lshift, "DOWN"),
            (Key::W, "DOWN"),
            (Key::Lshift, "UP"),
            (Key::W, "UP"),
            (Key::O, "DOWN"),
            (Key::O, "UP"),
            (Key::R, "DOWN"),
            (Key::R, "UP"),
            (Key::L, "DOWN"),
            (Key::L, "UP"),
            (Key::D, "DOWN"),
            (Key::D, "UP"),
            (Key::Lshift, "DOWN"),
            (Key::N1, "DOWN"),
            (Key::Lshift, "UP"),
            (Key::N1, "UP"),
        ]
    );
    assert_eq!(script.len(), 3 * 13);
    assert_eq!(keyboard.release(), one(Key::NONE));
}

#[test]
fn type_string_press_release_pause() {
    let keyboard = Keyboard::new();
    let script = keyboard.type_string("aB", 7).unwrap();
    assert_eq!(
        script,
        vec![
            one(Key::A),
            one(Key::NONE),
            Action::Sleep { millis: 7 },
            keys(Key::Lshift, Key::B, Key::NONE, Key::NONE, Key::NONE, Key::NONE),
            one(Key::NONE),
            Action::Sleep { millis: 7 },
        ]
    );
    assert_eq!(
        records(&script),
        vec![
            vec![0, 0, 4, 0, 0, 0, 0, 0],
            vec![0; 8],
            vec![0, 0, 0xE1, 5, 0, 0, 0, 0],
            vec![0; 8],
        ]
    );
}

#[test]
fn type_string_of_nothing_is_empty() {
    let keyboard = Keyboard::new();
    assert_eq!(keyboard.type_string("", 50), Ok(vec![]));
}

#[test]
fn type_string_refuses_unmapped_character() {
    let keyboard = Keyboard::new();
    assert_eq!(
        keyboard.type_string("na\u{ef}ve", 50),
        Err(Untypable { character: '\u{ef}', index: 2 })
    );
    assert_eq!(
        keyboard.type_string("\u{20ac}", 0),
        Err(Untypable { character: '\u{20ac}', index: 0 })
    );
    assert_eq!(
        keyboard.type_string("ok\r", 0),
        Err(Untypable { character: '\r', index: 2 })
    );
}

#[test]
fn lookup_of_characters() {
    assert_eq!(lookup('a'), Some((Key::A, false)));
    assert_eq!(lookup('A'), Some((Key::A, true)));
    assert_eq!(lookup('z'), Some((Key::Z, false)));
    assert_eq!(lookup('Z'), Some((Key::Z, true)));
    assert_eq!(lookup('1'), Some((Key::N1, false)));
    assert_eq!(lookup('!'), Some((Key::N1, true)));
    assert_eq!(lookup('0'), Some((Key::N0, false)));
    assert_eq!(lookup(')'), Some((Key::N0, true)));
    assert_eq!(lookup('-'), Some((Key::Minus, false)));
    assert_eq!(lookup('_'), Some((Key::Minus, true)));
    assert_eq!(lookup('='), Some((Key::Equal, false)));
    assert_eq!(lookup('+'), Some((Key::Equal, true)));
    assert_eq!(lookup('['), Some((Key::SquareBracketLeft, false)));
    assert_eq!(lookup('}'), Some((Key::SquareBracketRight, true)));
    assert_eq!(lookup('\\'), Some((Key::BackSlash, false)));
    assert_eq!(lookup('|'), Some((Key::BackSlash, true)));
    assert_eq!(lookup(';'), Some((Key::Column, false)));
    assert_eq!(lookup(':'), Some((Key::Column, true)));
    assert_eq!(lookup('\''), Some((Key::Quote, false)));
    assert_eq!(lookup('"'), Some((Key::Quote, true)));
    assert_eq!(lookup('`'), Some((Key::BackTick, false)));
    assert_eq!(lookup('~'), Some((Key::BackTick, true)));
    assert_eq!(lookup(','), Some((Key::Comma, false)));
    assert_eq!(lookup('<'), Some((Key::Comma, true)));
    assert_eq!(lookup('.'), Some((Key::Period, false)));
    assert_eq!(lookup('>'), Some((Key::Period, true)));
    assert_eq!(lookup('/'), Some((Key::Slash, false)));
    assert_eq!(lookup('?'), Some((Key::Slash, true)));
    assert_eq!(lookup(' '), Some((Key::Space, false)));
    assert_eq!(lookup('\n'), Some((Key::Enter, false)));
    assert_eq!(lookup('\t'), Some((Key::Tab, false)));
    assert_eq!(lookup('\0'), None);
    assert_eq!(lookup('\u{e9}'), None);
}
