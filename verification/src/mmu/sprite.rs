use vstd::prelude::*;

verus! {

broadcast use crate::bits::group_bits;

/// The attribute byte of a sprite.
#[derive(Debug, Copy, Clone)]
pub struct Flag(pub u8);

impl From<u8> for Flag {
    fn from(u8: u8) -> (r: Self)
        ensures
            r.0 == u8,
    {
        Self(u8)
    }
}

impl vstd::std_specs::convert::FromSpecImpl<u8> for Flag {
    open spec fn obeys_from_spec() -> bool {
        true
    }

    open spec fn from_spec(v: u8) -> Self {
        Flag(v)
    }
}

impl From<Flag> for u8 {
    fn from(from: Flag) -> (r: u8)
        ensures
            r == from.0,
    {
        from.0
    }
}

impl vstd::std_specs::convert::FromSpecImpl<Flag> for u8 {
    open spec fn obeys_from_spec() -> bool {
        true
    }

    open spec fn from_spec(v: Flag) -> u8 {
        v.0
    }
}

impl Flag {
    pub fn is_x_flipped(&self) -> (r: bool)
        ensures
            r == ((self.0 >> 5) & 1 == 1),
    {
        (self.0 >> 5) & 1 == 1
    }

    pub fn is_y_flipped(&self) -> (r: bool)
        ensures
            r == ((self.0 >> 6) & 1 == 1),
    {
        (self.0 >> 6) & 1 == 1
    }

    pub fn bg_prior(&self) -> (r: bool)
        ensures
            r == ((self.0 >> 7) & 1 == 1),
    {
        (self.0 >> 7) & 1 == 1
    }

    pub fn palette_1(&self) -> (r: bool)
        ensures
            r == ((self.0 >> 4) & 1 == 1),
    {
        (self.0 >> 4) & 1 == 1
    }
}

/// One entry of the object attribute memory.
#[derive(Debug, Copy, Clone)]
pub struct Sprite {
    pub y: u8,
    pub x: u8,
    pub tiledata_index: u8,
    pub flags: Flag,
}

impl From<[u8; 4]> for Sprite {
    fn from(from: [u8; 4]) -> (r: Self)
        ensures
            r.y == from@[0] && r.x == from@[1] && r.tiledata_index == from@[2] && r.flags.0 == from@[3],
    {
        Self { y: from[0], x: from[1], tiledata_index: from[2], flags: Flag(from[3]) }
    }
}

impl vstd::std_specs::convert::FromSpecImpl<[u8; 4]> for Sprite {
    open spec fn obeys_from_spec() -> bool {
        true
    }

    open spec fn from_spec(v: [u8; 4]) -> Self {
        Sprite { y: v@[0], x: v@[1], tiledata_index: v@[2], flags: Flag(v@[3]) }
    }
}

impl Sprite {
    pub fn new(y: u8, x: u8, tiledata_index: u8, flags: u8) -> (r: Self)
        ensures
            r.y == y && r.x == x && r.tiledata_index == tiledata_index && r.flags.0 == flags,
    {
        Self { y, x, tiledata_index, flags: Flag(flags) }
    }

    /// The four bytes sum to 0 modulo 256.
    pub fn is_empty(&self) -> (r: bool)
        ensures
            r == ((self.flags.0 as int + self.y as int + self.x as int + self.tiledata_index as int) % 256 == 0),
    {
        let flags: u8 = self.flags.0;
        flags.wrapping_add(self.y).wrapping_add(self.x).wrapping_add(self.tiledata_index) == 0
    }

    pub fn y(&self) -> (r: u8)
        ensures
            r == self.y,
    {
        self.y
    }

    pub fn x(&self) -> (r: u8)
        ensures
            r == self.x,
    {
        self.x
    }

    pub fn tiledata_index(&self) -> (r: u8)
        ensures
            r == self.tiledata_index,
    {
        self.tiledata_index
    }

    pub fn flags(&self) -> (r: &Flag)
        ensures
            *r == self.flags,
    {
        &self.flags
    }
}

impl Default for Sprite {
    fn default() -> (r: Self)
        ensures
            r.y == 0 && r.x == 0 && r.tiledata_index == 0 && r.flags.0 == 0,
    {
        Self::new(0, 0, 0, 0)
    }
}

} // verus!
