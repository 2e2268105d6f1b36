use vstd::prelude::*;

verus! {

broadcast use crate::bits::group_bits;

#[derive(Debug, Copy, Clone, PartialEq, Eq, Structural)]
pub enum Mode {
    HBlank,
    VBlank,
    OAMSearch,
    LCDTransfer,
}

impl Mode {
    /// The two mode bits of STAT.
    pub open spec fn bits(self) -> u8 {
        match self {
            Mode::HBlank => 0b00,
            Mode::VBlank => 0b01,
            Mode::OAMSearch => 0b10,
            Mode::LCDTransfer => 0b11,
        }
    }

    pub open spec fn from_bits(bits: u8) -> Mode {
        if bits == 0 {
            Mode::HBlank
        } else if bits == 1 {
            Mode::VBlank
        } else if bits == 2 {
            Mode::OAMSearch
        } else {
            Mode::LCDTransfer
        }
    }
}

/// The LCD status register.
#[derive(Copy, Clone)]
pub struct LCDSTAT(u8);

impl View for LCDSTAT {
    type V = u8;

    closed spec fn view(&self) -> u8 {
        self.0
    }
}

impl From<u8> for LCDSTAT {
    fn from(from: u8) -> (r: Self)
        ensures
            r@ == from,
    {
        LCDSTAT(from)
    }
}

impl vstd::std_specs::convert::FromSpecImpl<u8> for LCDSTAT {
    open spec fn obeys_from_spec() -> bool {
        true
    }

    closed spec fn from_spec(v: u8) -> Self {
        LCDSTAT(v)
    }
}

impl From<LCDSTAT> for u8 {
    fn from(from: LCDSTAT) -> (r: u8)
        ensures
            r == from@,
    {
        from.0
    }
}

impl vstd::std_specs::convert::FromSpecImpl<LCDSTAT> for u8 {
    open spec fn obeys_from_spec() -> bool {
        true
    }

    open spec fn from_spec(v: LCDSTAT) -> u8 {
        v@
    }
}

impl LCDSTAT {
    pub fn new(mode: Mode) -> (r: Self)
        ensures
            r@ == mode.bits(),
    {
        let mut stat = LCDSTAT(0);
        stat.set_mode(mode);
        assert(0u8 & 0b1111_1100 == 0) by (bit_vector);
        assert(forall|b: u8| b <= 3 ==> 0u8 | b == b) by (bit_vector);
        stat
    }

    pub fn mode(&self) -> (r: Mode)
        ensures
            r == Mode::from_bits(self@ & 0b11),
    {
        let bits = self.0 & 0b11;
        match bits {
            0b00 => Mode::HBlank,
            0b01 => Mode::VBlank,
            0b10 => Mode::OAMSearch,
            _ => Mode::LCDTransfer,
        }
    }

    pub fn ly_eq_lyc(&self) -> (r: bool)
        ensures
            r == ((self@ >> 6) & 1 == 1),
    {
        (self.0 >> 6) & 1 == 1
    }

    pub fn oam_interrupt(&self) -> (r: bool)
        ensures
            r == ((self@ >> 5) & 1 == 1),
    {
        (self.0 >> 5) & 1 == 1
    }

    pub fn vblank_interrupt(&self) -> (r: bool)
        ensures
            r == ((self@ >> 4) & 1 == 1),
    {
        (self.0 >> 4) & 1 == 1
    }

    pub fn hblank_interrupt(&self) -> (r: bool)
        ensures
            r == ((self@ >> 3) & 1 == 1),
    {
        (self.0 >> 3) & 1 == 1
    }

    pub fn set_coincidence(&mut self, ly_eq_lyc: bool)
        ensures
            final(self)@ == if ly_eq_lyc { old(self)@ | 0b0000_0100 } else { old(self)@ & 0b1111_1011 },
    {
        self.0 = if ly_eq_lyc { self.0 | 0b0000_0100 } else { self.0 & 0b1111_1011 };
    }

    pub fn coincidence(&self) -> (r: bool)
        ensures
            r == ((self@ >> 2) & 1 == 1),
    {
        (self.0 >> 2) & 1 == 1
    }

    pub fn set_mode(&mut self, mode: Mode)
        ensures
            final(self)@ == (old(self)@ & 0b1111_1100) | mode.bits(),
    {
        let bits: u8 = match mode {
            Mode::HBlank => 0b00,
            Mode::VBlank => 0b01,
            Mode::OAMSearch => 0b10,
            Mode::LCDTransfer => 0b11,
        };
        self.0 = (self.0 & 0b1111_1100) | bits;
    }
}

} // verus!
