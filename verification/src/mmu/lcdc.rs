use vstd::prelude::*;

verus! {

broadcast use crate::bits::group_bits;

#[derive(Debug, Copy, Clone, PartialEq, Eq, Structural)]
pub enum TileMapArea {
    U9800,
    U9C00,
}

impl TileMapArea {
    pub open spec fn base(self) -> u16 {
        match self {
            TileMapArea::U9800 => 0x9800,
            TileMapArea::U9C00 => 0x9C00,
        }
    }

    pub fn address(&self, offset: u16) -> (r: u16)
        requires
            offset <= 0x63FF,
        ensures
            r == self.base() + offset,
    {
        match self {
            TileMapArea::U9800 => 0x9800 + offset,
            TileMapArea::U9C00 => 0x9C00 + offset,
        }
    }
}

#[derive(Debug, Copy, Clone, PartialEq, Eq, Structural)]
pub enum TileDataArea {
    I8800,
    U8000,
}

impl TileDataArea {
    /// Where the 16 bytes of tile `offset` start: signed tile numbers around
    /// 0x9000, or unsigned ones from 0x8000.
    pub open spec fn tile_address(self, offset: u16) -> int {
        match self {
            TileDataArea::I8800 => 0x9000 + (offset as i8) as int * 16,
            TileDataArea::U8000 => 0x8000 + offset as int * 16,
        }
    }

    pub fn address(&self, offset: u16) -> (r: u16)
        requires
            *self == TileDataArea::U8000 ==> offset < 0x800,
        ensures
            r == self.tile_address(offset),
    {
        match self {
            TileDataArea::I8800 => {
                let base = 0x9000i32;
                let signed = offset as i8;
                let r = (base + (signed as i32) * 16) as u16;
                assert(-128 <= signed < 128);
                r
            },
            TileDataArea::U8000 => {
                let base = 0x8000u16;
                base + offset * 16
            },
        }
    }

    /// Where tile `t` of a tile map lies. From 0x8000, tiles 0 to 255 follow
    /// one another. In the 0x8800 mode tile numbers are signed around 0x9000:
    /// tiles 0 to 127 lie from 0x9000 up to 0x97F0, tiles 128 to 255 from
    /// 0x8800, where the same tiles lie in the 0x8000 mode; no tile lies
    /// outside 0x8000 to 0x97FF.
    pub proof fn lemma_tile_address(t: u8)
        ensures
            TileDataArea::U8000.tile_address(t as u16) == 0x8000 + 16 * t,
            TileDataArea::I8800.tile_address(t as u16) == if t < 128 {
                0x9000 + 16 * t
            } else {
                0x8800 + 16 * (t - 128)
            },
            t >= 128 ==> TileDataArea::I8800.tile_address(t as u16)
                == TileDataArea::U8000.tile_address(t as u16),
            0x8800 <= TileDataArea::I8800.tile_address(t as u16) <= 0x97F0,
    {
        let o = t as u16;
        assert({
            &&& o < 128 ==> (o as i8) as i16 == o as i16
            &&& o >= 128 ==> (o as i8) as i16 + 256 == o as i16
        }) by (bit_vector)
            requires
                o < 256,
        ;
    }
}

/// The LCD control register.
#[derive(Copy, Clone)]
pub struct LCDC(u8);

impl View for LCDC {
    type V = u8;

    closed spec fn view(&self) -> u8 {
        self.0
    }
}

impl From<u8> for LCDC {
    fn from(from: u8) -> (r: Self)
        ensures
            r@ == from,
    {
        LCDC(from)
    }
}

impl vstd::std_specs::convert::FromSpecImpl<u8> for LCDC {
    open spec fn obeys_from_spec() -> bool {
        true
    }

    closed spec fn from_spec(v: u8) -> Self {
        LCDC(v)
    }
}

impl From<LCDC> for u8 {
    fn from(from: LCDC) -> (r: u8)
        ensures
            r == from@,
    {
        from.0
    }
}

impl vstd::std_specs::convert::FromSpecImpl<LCDC> for u8 {
    open spec fn obeys_from_spec() -> bool {
        true
    }

    open spec fn from_spec(v: LCDC) -> u8 {
        v@
    }
}

/// Bit `n` of a byte.
pub open spec fn bit(v: u8, n: u8) -> bool {
    (v >> n) & 1 == 1
}

impl LCDC {
    pub fn sprite_height(&self) -> (r: u8)
        ensures
            r == if bit(self@, 2) { 16u8 } else { 8u8 },
    {
        if (self.0 >> 2) & 1 == 0 { 8 } else { 16 }
    }

    pub fn bg_tilemap_area(&self) -> (r: TileMapArea)
        ensures
            r == if bit(self@, 3) { TileMapArea::U9C00 } else { TileMapArea::U9800 },
    {
        if (self.0 >> 3) & 1 == 0 {
            TileMapArea::U9800
        } else {
            TileMapArea::U9C00
        }
    }

    pub fn window_tilemap_area(&self) -> (r: TileMapArea)
        ensures
            r == if bit(self@, 6) { TileMapArea::U9C00 } else { TileMapArea::U9800 },
    {
        if (self.0 >> 6) & 1 == 0 {
            TileMapArea::U9800
        } else {
            TileMapArea::U9C00
        }
    }

    pub fn bg_window_tiledata_area(&self) -> (r: TileDataArea)
        ensures
            r == if bit(self@, 4) { TileDataArea::U8000 } else { TileDataArea::I8800 },
    {
        if (self.0 >> 4) & 1 == 0 {
            TileDataArea::I8800
        } else {
            TileDataArea::U8000
        }
    }

    pub fn is_sprite_enable(&self) -> (r: bool)
        ensures
            r == bit(self@, 1),
    {
        (self.0 >> 1) & 1 == 1
    }

    pub fn is_display_enable(&self) -> (r: bool)
        ensures
            r == bit(self@, 7),
    {
        (self.0 >> 7) & 1 == 1
    }

    /// The window shows only when the background is on as well.
    pub fn is_window_enable(&self) -> (r: bool)
        ensures
            r == (bit(self@, 0) && bit(self@, 5)),
    {
        self.is_bg_window_enable() && (self.0 >> 5) & 1 == 1
    }

    pub fn is_bg_window_enable(&self) -> (r: bool)
        ensures
            r == bit(self@, 0),
    {
        (self.0 >> 0) & 1 == 1
    }
}

} // verus!
