use vstd::prelude::*;

verus! {

broadcast use crate::bits::group_bits;

#[derive(Debug, Copy, Clone, PartialEq, Eq, Structural)]
pub enum Key {
    Start,
    Select,
    B,
    A,
    Down,
    Up,
    Left,
    Right,
}

/// Which group of buttons the joypad register shows.
#[derive(Debug, Copy, Clone, PartialEq, Eq, Structural)]
pub enum Mode {
    Direction,
    Action,
    Unselected,
}

pub struct JoyPad {
    pub mode: Mode,
    pub start: bool,
    pub select: bool,
    pub b: bool,
    pub a: bool,
    pub down: bool,
    pub up: bool,
    pub left: bool,
    pub right: bool,
}

/// A key reads as held after it is pressed and as let go after it is
/// released, the other keys left; releasing a key that was up after pressing
/// it gives back the pad as it was.
pub proof fn lemma_press_release(j: JoyPad, key: Key, other: Key, down: bool)
    ensures
        j.with_key(key, down).pressed(key) == down,
        other != key ==> j.with_key(key, down).pressed(other) == j.pressed(other),
        !j.pressed(key) ==> j.with_key(key, true).with_key(key, false) == j,
        j.with_key(key, down).mode == j.mode,
{
}

impl Default for JoyPad {
    fn default() -> (r: Self)
        ensures
            r.mode == Mode::Unselected,
            !r.start && !r.select && !r.b && !r.a,
            !r.down && !r.up && !r.left && !r.right,
    {
        Self {
            mode: Mode::Unselected,
            start: false,
            select: false,
            b: false,
            a: false,
            down: false,
            up: false,
            left: false,
            right: false,
        }
    }
}

impl JoyPad {
    /// Whether `key` is held down.
    pub open spec fn pressed(self, key: Key) -> bool {
        match key {
            Key::Start => self.start,
            Key::Select => self.select,
            Key::B => self.b,
            Key::A => self.a,
            Key::Down => self.down,
            Key::Up => self.up,
            Key::Left => self.left,
            Key::Right => self.right,
        }
    }

    /// The same pad with `key` held (`down`) or let go.
    pub open spec fn with_key(self, key: Key, down: bool) -> JoyPad {
        match key {
            Key::Start => JoyPad { start: down, ..self },
            Key::Select => JoyPad { select: down, ..self },
            Key::B => JoyPad { b: down, ..self },
            Key::A => JoyPad { a: down, ..self },
            Key::Down => JoyPad { down: down, ..self },
            Key::Up => JoyPad { up: down, ..self },
            Key::Left => JoyPad { left: down, ..self },
            Key::Right => JoyPad { right: down, ..self },
        }
    }

    /// The group selected by a write: a clear bit 5 selects the action buttons,
    /// otherwise the directions.
    pub open spec fn mode_after_write(v: u8) -> Mode {
        if (v >> 5) & 1 == 0 {
            Mode::Action
        } else {
            Mode::Direction
        }
    }

    /// The byte the joypad register reads as: bits of held buttons are 0.
    pub open spec fn spec_bytes(self) -> u8 {
        match self.mode {
            Mode::Unselected => 0xFF,
            Mode::Direction => 0b1101_0000
                | (if self.down { 0 } else { 0b1000u8 })
                | (if self.up { 0 } else { 0b0100u8 })
                | (if self.left { 0 } else { 0b0010u8 })
                | (if self.right { 0 } else { 0b0001u8 }),
            Mode::Action => 0b1110_0000
                | (if self.start { 0 } else { 0b1000u8 })
                | (if self.select { 0 } else { 0b0100u8 })
                | (if self.b { 0 } else { 0b0010u8 })
                | (if self.a { 0 } else { 0b0001u8 }),
        }
    }

    pub fn write(&mut self, u8: u8)
        ensures
            *final(self) == (JoyPad { mode: JoyPad::mode_after_write(u8), ..*old(self) }),
    {
        self.mode = if (u8 >> 5) & 1 == 0 {
            Mode::Action
        } else if (u8 >> 4) & 0 == 0 {
            Mode::Direction
        } else {
            Mode::Unselected
        };
        assert((u8 >> 4) & 0 == 0) by (bit_vector);
    }

    pub fn press(&mut self, key: Key)
        ensures
            *final(self) == old(self).with_key(key, true),
    {
        match key {
            Key::Start => { self.start = true },
            Key::Select => { self.select = true },
            Key::B => { self.b = true },
            Key::A => { self.a = true },
            Key::Down => { self.down = true },
            Key::Up => { self.up = true },
            Key::Left => { self.left = true },
            Key::Right => { self.right = true },
        }
    }

    pub fn release(&mut self, key: Key)
        ensures
            *final(self) == old(self).with_key(key, false),
    {
        match key {
            Key::Start => { self.start = false },
            Key::Select => { self.select = false },
            Key::B => { self.b = false },
            Key::A => { self.a = false },
            Key::Down => { self.down = false },
            Key::Up => { self.up = false },
            Key::Left => { self.left = false },
            Key::Right => { self.right = false },
        }
    }

    pub fn bytes(&self) -> (r: u8)
        ensures
            r == self.spec_bytes(),
    {
        match self.mode {
            Mode::Unselected => { 0xFF },
            Mode::Direction => {
                let mut byte: u8 = 0b1101_1111;
                if self.down {
                    byte = byte & 0b1111_0111
                }
                if self.up {
                    byte = byte & 0b1111_1011
                }
                if self.left {
                    byte = byte & 0b1111_1101
                }
                if self.right {
                    byte = byte & 0b1111_1110
                }
                let (d, u, l, r) = (self.down, self.up, self.left, self.right);
                assert(byte == 0b1101_0000
                    | (if d { 0 } else { 0b1000u8 })
                    | (if u { 0 } else { 0b0100u8 })
                    | (if l { 0 } else { 0b0010u8 })
                    | (if r { 0 } else { 0b0001u8 })) by (bit_vector)
                    requires
                        byte == (((0b1101_1111u8 & (if d { 0b1111_0111u8 } else { 0xFFu8 }))
                            & (if u { 0b1111_1011u8 } else { 0xFFu8 }))
                            & (if l { 0b1111_1101u8 } else { 0xFFu8 }))
                            & (if r { 0b1111_1110u8 } else { 0xFFu8 }),
                ;
                byte
            },
            Mode::Action => {
                let mut byte: u8 = 0b1110_1111;
                if self.start {
                    byte = byte & 0b1111_0111
                }
                if self.select {
                    byte = byte & 0b1111_1011
                }
                if self.b {
                    byte = byte & 0b1111_1101
                }
                if self.a {
                    byte = byte & 0b1111_1110
                }
                let (s, e, b, a) = (self.start, self.select, self.b, self.a);
                assert(byte == 0b1110_0000
                    | (if s { 0 } else { 0b1000u8 })
                    | (if e { 0 } else { 0b0100u8 })
                    | (if b { 0 } else { 0b0010u8 })
                    | (if a { 0 } else { 0b0001u8 })) by (bit_vector)
                    requires
                        byte == (((0b1110_1111u8 & (if s { 0b1111_0111u8 } else { 0xFFu8 }))
                            & (if e { 0b1111_1011u8 } else { 0xFFu8 }))
                            & (if b { 0b1111_1101u8 } else { 0xFFu8 }))
                            & (if a { 0b1111_1110u8 } else { 0xFFu8 }),
                ;
                byte
            },
        }
    }
}

} // verus!
