//! The two fixed-layout records that the kernel device accepts.

use vstd::prelude::*;

verus! {

/// Control code of a request that carries a [`MouseIO`] record.
pub const MOUSE_IOCTL: u32 = 0x002A_2010;

/// Control code of a request that carries a [`KeyboardIO`] record.
pub const KEYBOARD_IOCTL: u32 = 0x002A_200C;

/// Length in bytes of a mouse record.
pub const MOUSE_IO_LEN: usize = 5;

/// Length in bytes of a keyboard record.
pub const KEYBOARD_IO_LEN: usize = 8;

/// The byte that carries a signed 8-bit value: its two's complement.
pub open spec fn byte_of(v: i8) -> u8 {
    if v >= 0 {
        v as u8
    } else {
        (v + 256) as u8
    }
}

/// The mouse record for a button state, two deltas and a wheel delta.
pub open spec fn mouse_record(button: u8, x: i8, y: i8, wheel: i8) -> Seq<u8> {
    seq![button, byte_of(x), byte_of(y), byte_of(wheel), 0u8]
}

/// The keyboard record for six key slots.
pub open spec fn keyboard_record(
    button1: u8,
    button2: u8,
    button3: u8,
    button4: u8,
    button5: u8,
    button6: u8,
) -> Seq<u8> {
    seq![0u8, 0u8, button1, button2, button3, button4, button5, button6]
}

/// Reinterprets a signed 8-bit value as the byte that carries it.
pub fn to_byte(v: i8) -> (b: u8)
    ensures
        b == byte_of(v),
{
    let b = #[verifier::truncate] (v as u8);
    assert(b as int == (if v >= 0 { v as int } else { v + 256 })) by (bit_vector)
        requires
            b == v as u8,
    ;
    b
}

/// A mouse action as the device reads it.
#[derive(Clone, Copy, Debug)]
pub struct MouseIO {
    button: u8,
    x: i8,
    y: i8,
    wheel: i8,
    unk1: i8,
}

impl View for MouseIO {
    type V = Seq<u8>;

    /// The record, byte by byte.
    closed spec fn view(&self) -> Seq<u8> {
        seq![self.button, byte_of(self.x), byte_of(self.y), byte_of(self.wheel), byte_of(self.unk1)]
    }
}

impl MouseIO {
    #[verifier::type_invariant]
    spec fn reserved_is_zero(self) -> bool {
        self.unk1 == 0
    }

    /// Builds the record; the reserved byte is zero.
    pub fn new(button: u8, x: i8, y: i8, wheel: i8) -> (io: Self)
        ensures
            io@ == mouse_record(button, x, y, wheel),
            io@.len() == MOUSE_IO_LEN,
            io@[4] == 0,
    {
        let unk1: i8 = 0;
        Self { button, x, y, wheel, unk1 }
    }

    /// The button state.
    pub fn button(&self) -> (b: u8)
        ensures
            b == self@[0],
    {
        self.button
    }

    /// The horizontal delta.
    pub fn x(&self) -> (v: i8)
        ensures
            byte_of(v) == self@[1],
    {
        self.x
    }

    /// The vertical delta.
    pub fn y(&self) -> (v: i8)
        ensures
            byte_of(v) == self@[2],
    {
        self.y
    }

    /// The wheel delta.
    pub fn wheel(&self) -> (v: i8)
        ensures
            byte_of(v) == self@[3],
    {
        self.wheel
    }

    /// The bytes to hand to the device: as many as the record is long, the last one zero.
    pub fn to_bytes(&self) -> (bytes: Vec<u8>)
        ensures
            bytes@ == self@,
            bytes@.len() == MOUSE_IO_LEN,
            bytes@[4] == 0,
    {
        proof {
            use_type_invariant(self);
        }
        vec![self.button, to_byte(self.x), to_byte(self.y), to_byte(self.wheel), to_byte(self.unk1)]
    }
}

/// Up to six simultaneous key states as the device reads them.
#[derive(Clone, Copy, Debug)]
pub struct KeyboardIO {
    unknown1: u8,
    unknown2: u8,
    button1: u8,
    button2: u8,
    button3: u8,
    button4: u8,
    button5: u8,
    button6: u8,
}

impl View for KeyboardIO {
    type V = Seq<u8>;

    /// The record, byte by byte.
    closed spec fn view(&self) -> Seq<u8> {
        seq![
            self.unknown1,
            self.unknown2,
            self.button1,
            self.button2,
            self.button3,
            self.button4,
            self.button5,
            self.button6,
        ]
    }
}

impl KeyboardIO {
    #[verifier::type_invariant]
    spec fn reserved_are_zero(self) -> bool {
        self.unknown1 == 0 && self.unknown2 == 0
    }

    /// Builds the record; both reserved bytes are zero.
    pub fn new(button1: u8, button2: u8, button3: u8, button4: u8, button5: u8, button6: u8) -> (io:
        Self)
        ensures
            io@ == keyboard_record(button1, button2, button3, button4, button5, button6),
            io@.len() == KEYBOARD_IO_LEN,
            io@[0] == 0,
            io@[1] == 0,
    {
        let unknown1: u8 = 0;
        let unknown2: u8 = 0;
        Self { unknown1, unknown2, button1, button2, button3, button4, button5, button6 }
    }

    /// The key in a slot; slots are numbered from 1 to 6.
    pub fn slot(&self, slot: usize) -> (key: u8)
        requires
            1 <= slot <= 6,
        ensures
            key == self@[slot + 1],
    {
        if slot == 1 {
            self.button1
        } else if slot == 2 {
            self.button2
        } else if slot == 3 {
            self.button3
        } else if slot == 4 {
            self.button4
        } else if slot == 5 {
            self.button5
        } else {
            self.button6
        }
    }

    /// The bytes to hand to the device: as many as the record is long, the first two zero.
    pub fn to_bytes(&self) -> (bytes: Vec<u8>)
        ensures
            bytes@ == self@,
            bytes@.len() == KEYBOARD_IO_LEN,
            bytes@[0] == 0,
            bytes@[1] == 0,
    {
        proof {
            use_type_invariant(self);
        }
        vec![
            self.unknown1,
            self.unknown2,
            self.button1,
            self.button2,
            self.button3,
            self.button4,
            self.button5,
            self.button6,
        ]
    }
}

/// Every record has the length of its kind and zero in its reserved bytes, whatever
/// it carries.
pub proof fn records_are_well_formed(
    button: u8,
    x: i8,
    y: i8,
    wheel: i8,
    button1: u8,
    button2: u8,
    button3: u8,
    button4: u8,
    button5: u8,
    button6: u8,
)
    ensures
        mouse_record(button, x, y, wheel).len() == MOUSE_IO_LEN,
        mouse_record(button, x, y, wheel)[4] == 0,
        keyboard_record(button1, button2, button3, button4, button5, button6).len()
            == KEYBOARD_IO_LEN,
        keyboard_record(button1, button2, button3, button4, button5, button6)[0] == 0,
        keyboard_record(button1, button2, button3, button4, button5, button6)[1] == 0,
{
}

} // verus!
