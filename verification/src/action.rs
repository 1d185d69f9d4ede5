//! What the operations ask of the driver: calls of the channel, and pauses.

use crate::keyboard::Key;
use crate::mouse::MouseButton;
use vstd::prelude::*;

verus! {

/// One thing for the driver to do. The operations of [`crate::mouse::Mouse`] and
/// [`crate::keyboard::Keyboard`] hand these out, in the order in which they take effect.
#[derive(Clone, Copy, Debug, PartialEq, Eq, Structural)]
pub enum Action {
    /// Send a mouse command through the channel.
    Mouse { button: MouseButton, x: i8, y: i8, wheel: i8 },
    /// Send a keyboard command through the channel.
    Keyboard { button1: Key, button2: Key, button3: Key, button4: Key, button5: Key, button6: Key },
    /// Block the calling thread for this many milliseconds.
    Sleep { millis: u64 },
}

/// The mouse command that only sets the buttons.
pub open spec fn buttons(button: MouseButton) -> Action {
    Action::Mouse { button, x: 0, y: 0, wheel: 0 }
}

/// The mouse command that moves the pointer by `(x, y)`.
pub open spec fn relative_move(button: MouseButton, x: i8, y: i8) -> Action {
    Action::Mouse { button, x, y, wheel: 0 }
}

/// The keyboard command that holds one key.
pub open spec fn one_key(button: Key) -> Action {
    Action::Keyboard {
        button1: button,
        button2: Key::NONE,
        button3: Key::NONE,
        button4: Key::NONE,
        button5: Key::NONE,
        button6: Key::NONE,
    }
}

/// The keyboard command that holds no key.
pub open spec fn no_keys() -> Action {
    one_key(Key::NONE)
}

} // verus!
