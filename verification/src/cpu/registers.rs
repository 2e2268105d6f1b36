use vstd::prelude::*;
use crate::cpu::fflag::FFlag;

verus! {

#[derive(Debug, Copy, Clone, Eq, PartialEq, Structural)]
pub enum R16 {
    AF,
    BC,
    DE,
    HL,
    SP,
    PC,
}

#[derive(Debug, Copy, Clone, Eq, PartialEq, Structural)]
pub enum R8 {
    A,
    B,
    C,
    D,
    E,
    F,
    H,
    L,
    S,
    P,
    PCl,
    PCh,
}

impl R16 {
    /// The 8-bit register that holds the high byte of the pair.
    pub open spec fn high(self) -> R8 {
        match self {
            R16::AF => R8::A,
            R16::BC => R8::B,
            R16::DE => R8::D,
            R16::HL => R8::H,
            R16::SP => R8::S,
            R16::PC => R8::PCh,
        }
    }

    /// The 8-bit register that holds the low byte of the pair.
    pub open spec fn low(self) -> R8 {
        match self {
            R16::AF => R8::F,
            R16::BC => R8::C,
            R16::DE => R8::E,
            R16::HL => R8::L,
            R16::SP => R8::P,
            R16::PC => R8::PCl,
        }
    }
}

/// The mathematical model of the register file: twelve bytes.
pub struct RegisterFile {
    pub a: u8,
    pub b: u8,
    pub c: u8,
    pub d: u8,
    pub e: u8,
    pub f: u8,
    pub h: u8,
    pub l: u8,
    pub s: u8,
    pub p: u8,
    pub pcl: u8,
    pub pch: u8,
}

impl RegisterFile {
    pub open spec fn get8(self, r8: R8) -> u8 {
        match r8 {
            R8::A => self.a,
            R8::B => self.b,
            R8::C => self.c,
            R8::D => self.d,
            R8::E => self.e,
            R8::F => self.f,
            R8::H => self.h,
            R8::L => self.l,
            R8::S => self.s,
            R8::P => self.p,
            R8::PCl => self.pcl,
            R8::PCh => self.pch,
        }
    }

    /// Writing a byte; register F keeps only its upper nibble.
    pub open spec fn set8(self, r8: R8, to: u8) -> RegisterFile {
        match r8 {
            R8::A => RegisterFile { a: to, ..self },
            R8::B => RegisterFile { b: to, ..self },
            R8::C => RegisterFile { c: to, ..self },
            R8::D => RegisterFile { d: to, ..self },
            R8::E => RegisterFile { e: to, ..self },
            R8::F => RegisterFile { f: to & 0xF0, ..self },
            R8::H => RegisterFile { h: to, ..self },
            R8::L => RegisterFile { l: to, ..self },
            R8::S => RegisterFile { s: to, ..self },
            R8::P => RegisterFile { p: to, ..self },
            R8::PCl => RegisterFile { pcl: to, ..self },
            R8::PCh => RegisterFile { pch: to, ..self },
        }
    }

    /// A register pair read as a big-endian 16-bit value.
    pub open spec fn get16(self, r16: R16) -> u16 {
        (self.get8(r16.high()) as int * 256 + self.get8(r16.low()) as int) as u16
    }

    /// Writing a register pair: high byte, then low byte.
    pub open spec fn set16(self, r16: R16, to: u16) -> RegisterFile {
        self.set8(r16.high(), (to / 256) as u8).set8(r16.low(), (to % 256) as u8)
    }

    pub open spec fn flag(self, flag: FFlag) -> bool {
        self.f & flag.mask() == flag.mask()
    }

    pub open spec fn set_flag(self, flag: FFlag, set: bool) -> RegisterFile {
        RegisterFile { f: if set { self.f | flag.mask() } else { self.f & !flag.mask() }, ..self }
    }

    /// The lower nibble of F is always zero.
    pub open spec fn wf(self) -> bool {
        self.f & 0x0F == 0
    }
}

/// Bit facts about register F: the masks of the flags are single bits of
/// its upper nibble.
proof fn lemma_flag_bits()
    by (bit_vector)
    ensures
        forall|x: u8| #[trigger] ((x & 0xF0) & 0x0F) == 0,
        forall|x: u8, m: u8|
            (x & 0x0F == 0 && m & 0x0F == 0) ==> (#[trigger] (x | m)) & 0x0F == 0,
        forall|x: u8, m: u8|
            (x & 0x0F == 0) ==> (#[trigger] (x & !m)) & 0x0F == 0,
        forall|x: u8, m: u8| #[trigger] ((x | m) & m) == m,
        forall|x: u8, m: u8| m != 0 ==> #[trigger] ((x & !m) & m) != m,
        forall|x: u8, m: u8, n: u8| (m & n == 0) ==> ((#[trigger] ((x | m) & n) == n) == (x & n == n)),
        forall|x: u8, m: u8, n: u8| (m & n == 0) ==> ((#[trigger] ((x & !m) & n) == n) == (x & n == n)),
{
}

/// A pair other than AF reads back what was written to it.
pub proof fn lemma_set16_get16(r: RegisterFile, r16: R16, v: u16)
    requires
        r16 != R16::AF,
    ensures
        r.set16(r16, v).get16(r16) == v,
{
}

/// Writing one pair leaves the other pairs as they were.
pub proof fn lemma_set16_keeps_others(r: RegisterFile, a: R16, b: R16, v: u16)
    requires
        a != b,
    ensures
        r.set16(a, v).get16(b) == r.get16(b),
{
}

/// The low nibble of F stays clear through every write.
pub proof fn lemma_f_low_nibble_stays_clear(r: RegisterFile, r8: R8, v: u8, r16: R16, w: u16, flag: FFlag, set: bool)
    requires
        r.wf(),
    ensures
        r.set8(r8, v).wf(),
        r.set16(r16, w).wf(),
        r.set_flag(flag, set).wf(),
{
    lemma_flag_bits();
    lemma_mask_constants();
}

/// The flag masks are distinct single bits of the upper nibble.
proof fn lemma_mask_constants()
    ensures
        forall|f: FFlag| (#[trigger] f.mask()) & 0x0F == 0 && f.mask() != 0,
        forall|f: FFlag, g: FFlag| f != g ==> (#[trigger] f.mask()) & (#[trigger] g.mask()) == 0,
{
    assert(0x80u8 & 0x0F == 0 && 0x40u8 & 0x0F == 0 && 0x20u8 & 0x0F == 0 && 0x10u8 & 0x0F == 0
        && 0x80u8 & 0x40u8 == 0 && 0x80u8 & 0x20u8 == 0 && 0x80u8 & 0x10u8 == 0
        && 0x40u8 & 0x80u8 == 0 && 0x40u8 & 0x20u8 == 0 && 0x40u8 & 0x10u8 == 0
        && 0x20u8 & 0x80u8 == 0 && 0x20u8 & 0x40u8 == 0 && 0x20u8 & 0x10u8 == 0
        && 0x10u8 & 0x80u8 == 0 && 0x10u8 & 0x40u8 == 0 && 0x10u8 & 0x20u8 == 0) by (bit_vector);
}

/// A flag reads back as it was set, and the other flags are left.
pub proof fn lemma_flag_round_trip(r: RegisterFile, flag: FFlag, set: bool, other: FFlag)
    ensures
        r.set_flag(flag, set).flag(flag) == set,
        other != flag ==> r.set_flag(flag, set).flag(other) == r.flag(other),
{
    lemma_flag_bits();
    lemma_mask_constants();
}

pub struct Registers {
    a: u8,
    b: u8,
    c: u8,
    d: u8,
    e: u8,
    f: u8,
    h: u8,
    l: u8,
    s: u8,
    p: u8,
    pcl: u8,
    pch: u8,
}

impl View for Registers {
    type V = RegisterFile;

    closed spec fn view(&self) -> RegisterFile {
        RegisterFile {
            a: self.a,
            b: self.b,
            c: self.c,
            d: self.d,
            e: self.e,
            f: self.f,
            h: self.h,
            l: self.l,
            s: self.s,
            p: self.p,
            pcl: self.pcl,
            pch: self.pch,
        }
    }
}

impl Default for Registers {
    fn default() -> (r: Self)
        ensures
            r@ == (RegisterFile { a: 0, b: 0, c: 0, d: 0, e: 0, f: 0, h: 0, l: 0, s: 0, p: 0, pcl: 0, pch: 0 }),
    {
        Self { a: 0, b: 0, c: 0, d: 0, e: 0, f: 0, h: 0, l: 0, s: 0, p: 0, pcl: 0, pch: 0 }
    }
}

impl Registers {
    /// Reads the pair, then increments it (wrapping at 16 bits).
    pub fn get16i(&mut self, r16: R16, by: u16) -> (r: u16)
        ensures
            r == old(self)@.get16(r16),
            final(self)@ == old(self)@.set16(r16, r.wrapping_add(by)),
    {
        let r = self.get16(r16);
        self.set16(r16, r.wrapping_add(by));
        r
    }

    /// Reads the pair, then decrements it (wrapping at 16 bits).
    pub fn get16d(&mut self, r16: R16, by: u16) -> (r: u16)
        ensures
            r == old(self)@.get16(r16),
            final(self)@ == old(self)@.set16(r16, r.wrapping_sub(by)),
    {
        let r = self.get16(r16);
        self.set16(r16, r.wrapping_sub(by));
        r
    }

    /// Decrements the pair, then returns the decremented value.
    pub fn getd16(&mut self, r16: R16, by: u16) -> (r: u16)
        ensures
            r == old(self)@.get16(r16).wrapping_sub(by),
            final(self)@ == old(self)@.set16(r16, r),
    {
        let r = self.get16(r16);
        self.set16(r16, r.wrapping_sub(by));
        r.wrapping_sub(by)
    }

    pub fn inc16(&mut self, r16: R16, by: u16)
        ensures
            final(self)@ == old(self)@.set16(r16, old(self)@.get16(r16).wrapping_add(by)),
    {
        let v = self.get16(r16);
        self.set16(r16, v.wrapping_add(by));
    }

    pub fn dec16(&mut self, r16: R16, by: u16)
        ensures
            final(self)@ == old(self)@.set16(r16, old(self)@.get16(r16).wrapping_sub(by)),
    {
        let v = self.get16(r16);
        self.set16(r16, v.wrapping_sub(by));
    }

    pub fn set16(&mut self, r16: R16, to: u16)
        ensures
            final(self)@ == old(self)@.set16(r16, to),
    {
        let hi = ((to >> 8) & 0xFF) as u8;
        let lo = (to & 0xFF) as u8;
        assert(hi == (to / 256) as u8 && lo == (to % 256) as u8) by (bit_vector)
            requires
                hi == ((to >> 8) & 0xFF) as u8,
                lo == (to & 0xFF) as u8,
        ;
        match r16 {
            R16::AF => {
                self.a = hi;
                self.f = lo & 0xF0;
            },
            R16::BC => {
                self.b = hi;
                self.c = lo;
            },
            R16::DE => {
                self.d = hi;
                self.e = lo;
            },
            R16::HL => {
                self.h = hi;
                self.l = lo;
            },
            R16::SP => {
                self.s = hi;
                self.p = lo;
            },
            R16::PC => {
                self.pch = hi;
                self.pcl = lo;
            },
        };
    }

    pub fn get16(&self, r16: R16) -> (r: u16)
        ensures
            r == self@.get16(r16),
    {
        let (hi, lo) = match r16 {
            R16::AF => (self.a, self.f),
            R16::BC => (self.b, self.c),
            R16::DE => (self.d, self.e),
            R16::HL => (self.h, self.l),
            R16::SP => (self.s, self.p),
            R16::PC => (self.pch, self.pcl),
        };
        let r = ((hi as u16) << 8) | (lo as u16);
        assert(r == (hi as int * 256 + lo as int) as u16) by (bit_vector)
            requires
                r == ((hi as u16) << 8) | (lo as u16),
        ;
        r
    }

    pub fn set8(&mut self, r8: R8, to: u8)
        ensures
            final(self)@ == old(self)@.set8(r8, to),
    {
        match r8 {
            R8::A => self.a = to,
            R8::B => self.b = to,
            R8::C => self.c = to,
            R8::D => self.d = to,
            R8::E => self.e = to,
            R8::F => self.f = to & 0xF0,
            R8::H => self.h = to,
            R8::L => self.l = to,
            R8::S => self.s = to,
            R8::P => self.p = to,
            R8::PCl => self.pcl = to,
            R8::PCh => self.pch = to,
        }
    }

    pub fn get8(&self, r8: R8) -> (r: u8)
        ensures
            r == self@.get8(r8),
    {
        match r8 {
            R8::A => self.a,
            R8::B => self.b,
            R8::C => self.c,
            R8::D => self.d,
            R8::E => self.e,
            R8::F => self.f,
            R8::H => self.h,
            R8::L => self.l,
            R8::S => self.s,
            R8::P => self.p,
            R8::PCl => self.pcl,
            R8::PCh => self.pch,
        }
    }

    pub fn set_f(&mut self, flag: FFlag, set: bool)
        ensures
            final(self)@ == old(self)@.set_flag(flag, set),
    {
        let mask = Self::flag_mask(flag);
        if set {
            self.f = self.f | mask;
        } else {
            self.f = self.f & !mask;
        }
    }

    pub fn get_f(&self, flag: FFlag) -> (r: bool)
        ensures
            r == self@.flag(flag),
    {
        let mask = Self::flag_mask(flag);
        self.f & mask == mask
    }

    fn flag_mask(flag: FFlag) -> (r: u8)
        ensures
            r == flag.mask(),
    {
        match flag {
            FFlag::Z => 0b1000_0000,
            FFlag::N => 0b0100_0000,
            FFlag::H => 0b0010_0000,
            FFlag::C => 0b0001_0000,
        }
    }
}

} // verus!
