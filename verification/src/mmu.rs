pub mod bgp;
pub mod interrupt_flag;
pub mod joypad;
pub mod lcdc;
pub mod lcdstat;
pub mod sprite;
pub mod tac;

use vstd::prelude::*;
use crate::apu::{APU, is_apu_address};
use crate::cartridge::{Cartridge, is_cart_address};
use crate::mmu::bgp::{BGP, OBP};
use crate::mmu::interrupt_flag::{InterruptRequest, Interrupts};
use crate::mmu::joypad::{JoyPad, Key};
use crate::mmu::lcdc::LCDC;
use crate::mmu::lcdstat::LCDSTAT;
use crate::timer::Timer;

verus! {

/// The number of bytes that an OAM DMA copies.
pub const DMA_LENGTH: u16 = 0x9F;

/// Everything that the bus holds, as values.
pub struct MmuState {
    pub interrupt_flags: u8,
    pub interrupt_enables: u8,
    pub boot_mode: bool,
    pub boot_rom: Seq<u8>,
    pub cart: Option<Cartridge>,
    pub vram: Seq<u8>,
    pub bgp: u8,
    pub lcdc: u8,
    pub lcdstat: u8,
    pub scy: u8,
    pub scx: u8,
    pub ly: u8,
    pub apu: APU,
    pub wram: Seq<u8>,
    pub oam: Seq<u8>,
    pub hram: Seq<u8>,
    pub timer: Timer,
    pub wx: u8,
    pub wy: u8,
    pub obp0: u8,
    pub obp1: u8,
    pub lyc: u8,
    pub serial_transfer_data: u8,
    pub serial_transfer_control: u8,
    pub joypad: JoyPad,
    pub test: i8,
}

/// The addresses that the cartridge serves: the ROM below 0x8000 (under the
/// boot ROM while it is mapped) and the external RAM.
pub open spec fn reaches_cart(boot_mode: bool, address: int) -> bool {
    ||| (0x100 <= address <= 0x7FFF)
    ||| (0 <= address <= 0xFF && !boot_mode)
    ||| (0xA000 <= address <= 0xBFFF)
}

impl MmuState {
    /// One timer cycle, as `MMU::cycle_timer` makes it: the timer advances,
    /// the timer interrupt is requested when TIMA passes 0xFF, and the sound
    /// unit takes the clock that the timer hands it.
    pub open spec fn timer_cycled(self, next: MmuState) -> bool {
        &&& next.wf()
        &&& next == (MmuState {
            timer: self.timer.spec_cycle(),
            apu: next.apu,
            interrupt_flags: if self.timer.spec_overflows() {
                self.interrupt_flags | InterruptRequest::Timer.mask()
            } else {
                self.interrupt_flags
            },
            ..self
        })
        &&& self.timer.apu_after_cycle(self.apu, next.apu)
    }

    /// One cycle of the sound unit, as `MMU::cycle_apu` makes it; nothing
    /// else on the bus changes.
    pub open spec fn apu_cycled(self, next: MmuState) -> bool {
        &&& next.wf()
        &&& next == (MmuState { apu: next.apu, ..self })
        &&& APU::cycled(&self.apu, &next.apu)
    }

    pub open spec fn wf(self) -> bool {
        &&& self.boot_rom.len() == 0x100
        &&& self.vram.len() == 0x2000
        &&& self.wram.len() == 0x2000
        &&& self.oam.len() == 0xA0
        &&& self.hram.len() == 0x7F
        &&& self.apu.wf()
        &&& self.timer.wf()
        &&& self.cart matches Some(c) ==> c.wf() && c.banks_decodable()
    }

    /// Whether a read of `address` has something to read: the cartridge is
    /// there where the address is its.
    pub open spec fn readable(self, address: int) -> bool {
        reaches_cart(self.boot_mode, address) ==> self.cart is Some
    }

    pub open spec fn cart_read(self, address: int) -> u8 {
        match self.cart {
            Some(c) => c.read(address),
            None => 0xFF,
        }
    }

    /// What a read of `address` gives. Addresses that no register answers
    /// read 0xFF.
    pub open spec fn read(self, address: int) -> u8 {
        if address <= 0xFF {
            if self.boot_mode {
                self.boot_rom[address]
            } else {
                self.cart_read(address)
            }
        } else if address <= 0x7FFF {
            self.cart_read(address)
        } else if address <= 0x9FFF {
            self.vram[address - 0x8000]
        } else if address <= 0xBFFF {
            self.cart_read(address)
        } else if address <= 0xDFFF {
            self.wram[address - 0xC000]
        } else if address <= 0xFDFF {
            self.wram[address - 0xE000]
        } else if address <= 0xFE9F {
            self.oam[address - 0xFE00]
        } else {
            self.read_io(address)
        }
    }

    /// What a read of `address` from 0xFEA0 up gives.
    pub open spec fn read_io(self, address: int) -> u8 {
        if address == 0xFF00 {
            self.joypad.spec_bytes()
        } else if address == 0xFF01 {
            self.serial_transfer_data
        } else if address == 0xFF02 {
            self.serial_transfer_control
        } else if 0xFF04 <= address <= 0xFF07 {
            self.timer.spec_get(address as usize)
        } else if address == 0xFF0F {
            self.interrupt_flags
        } else if is_apu_address(address as usize) {
            self.apu.spec_get(address as usize)
        } else if address == 0xFF40 {
            self.lcdc
        } else if address == 0xFF41 {
            self.lcdstat
        } else if address == 0xFF42 {
            self.scy
        } else if address == 0xFF43 {
            self.scx
        } else if address == 0xFF44 {
            self.ly
        } else if address == 0xFF45 {
            self.lyc
        } else if address == 0xFF47 {
            self.bgp
        } else if address == 0xFF48 {
            self.obp0
        } else if address == 0xFF49 {
            self.obp1
        } else if address == 0xFF4A {
            self.wy
        } else if address == 0xFF4B {
            self.wx
        } else if 0xFF80 <= address <= 0xFFFE {
            self.hram[address - 0xFF80]
        } else if address == 0xFFFF {
            self.interrupt_enables
        } else {
            0xFF
        }
    }

    /// The object attribute memory after a DMA from page `page`: its first
    /// 0x9F bytes are read from `page * 0x100` on.
    pub open spec fn dma_oam(self, page: u8) -> Seq<u8> {
        Seq::new(
            0xA0,
            |i: int|
                if i < DMA_LENGTH {
                    self.read(page as int * 0x100 + i)
                } else {
                    self.oam[i]
                },
        )
    }

    /// Whether a DMA from page `page` reads only what is there.
    pub open spec fn dma_readable(self, page: u8) -> bool {
        forall|i: int| 0 <= i < DMA_LENGTH ==> #[trigger] self.readable(page as int * 0x100 + i)
    }

    /// A write of `val` to `address` turns the bus into `after`. The cartridge
    /// and the sound unit change as their own writes say; the other
    /// registers as the hardware reference describes them.
    pub open spec fn written(self, address: int, val: u8, after: MmuState) -> bool {
        if address <= 0x7FFF || 0xA000 <= address <= 0xBFFF {
            if (address <= 0x7FFF && self.boot_mode) || self.cart is None {
                after == self
            } else {
                &&& after == (MmuState { cart: after.cart, ..self })
                &&& after.cart is Some
                &&& self.cart->0.written(address, val, &after.cart->0)
            }
        } else if address <= 0x9FFF {
            after == (MmuState { vram: self.vram.update(address - 0x8000, val), ..self })
        } else if address <= 0xDFFF {
            after == (MmuState { wram: self.wram.update(address - 0xC000, val), ..self })
        } else if address <= 0xFDFF {
            after == (MmuState { wram: self.wram.update(address - 0xE000, val), ..self })
        } else if address <= 0xFE9F {
            after == (MmuState { oam: self.oam.update(address - 0xFE00, val), ..self })
        } else if is_apu_address(address as usize) {
            &&& after == (MmuState { apu: after.apu, ..self })
            &&& APU::set_to(&self.apu, address as usize, val, &after.apu)
        } else {
            after == self.written_io(address, val)
        }
    }

    /// The bus after a write of `val` to a register from 0xFEA0 up, other than
    /// the sound registers.
    pub open spec fn written_io(self, address: int, val: u8) -> MmuState {
        if address == 0xFF00 {
            MmuState {
                joypad: JoyPad { mode: JoyPad::mode_after_write(val), ..self.joypad },
                ..self
            }
        } else if address == 0xFF01 {
            MmuState { serial_transfer_data: val, ..self }
        } else if address == 0xFF02 {
            MmuState { serial_transfer_control: val, ..self }
        } else if 0xFF04 <= address <= 0xFF07 {
            MmuState { timer: self.timer.spec_set(address as usize, val), ..self }
        } else if address == 0xFF0F {
            MmuState { interrupt_flags: val, ..self }
        } else if address == 0xFF40 {
            MmuState { lcdc: val, ..self }
        } else if address == 0xFF41 {
            MmuState { lcdstat: (self.lcdstat & 0b11) | (val & 0b1111_1100), ..self }
        } else if address == 0xFF42 {
            MmuState { scy: val, ..self }
        } else if address == 0xFF43 {
            MmuState { scx: val, ..self }
        } else if address == 0xFF45 {
            MmuState { lyc: val, ..self }
        } else if address == 0xFF46 {
            MmuState { oam: self.dma_oam(val), ..self }
        } else if address == 0xFF47 {
            MmuState { bgp: val, ..self }
        } else if address == 0xFF48 {
            MmuState { obp0: val, ..self }
        } else if address == 0xFF49 {
            MmuState { obp1: val, ..self }
        } else if address == 0xFF4A {
            MmuState { wy: val, ..self }
        } else if address == 0xFF4B {
            MmuState {
                wx: if val < 7 {
                    7
                } else {
                    val
                },
                ..self
            }
        } else if address == 0xFF50 {
            MmuState { boot_mode: false, ..self }
        } else if 0xFF80 <= address <= 0xFFFE {
            MmuState { hram: self.hram.update(address - 0xFF80, val), ..self }
        } else if address == 0xFFFF {
            MmuState { interrupt_enables: val, ..self }
        } else {
            self
        }
    }

    /// Whether a write of `val` to `address` reads only what is there.
    pub open spec fn writable(self, address: int, val: u8) -> bool {
        address == 0xFF46 ==> self.dma_readable(val)
    }
}

/// The RAM that the bus holds itself: video RAM, work RAM and its echo,
/// object attribute memory and high RAM.
pub open spec fn is_ram_address(address: int) -> bool {
    ||| 0x8000 <= address <= 0x9FFF
    ||| 0xC000 <= address <= 0xFDFF
    ||| 0xFE00 <= address <= 0xFE9F
    ||| 0xFF80 <= address <= 0xFFFE
}

/// Two addresses of the same byte: the same address, or a work RAM address
/// and its echo 0x2000 higher.
pub open spec fn same_cell(a: int, b: int) -> bool {
    ||| a == b
    ||| 0xC000 <= a <= 0xDDFF && b == a + 0x2000
    ||| 0xC000 <= b <= 0xDDFF && a == b + 0x2000
}

/// A byte written to RAM reads back, at its address and its echo, and no
/// other address reads differently.
#[verifier::rlimit(50)]
pub proof fn lemma_ram_read_after_write(m: MmuState, address: int, val: u8, after: MmuState)
    requires
        m.wf(),
        is_ram_address(address),
        m.written(address, val, after),
    ensures
        after.read(address) == val,
        forall|b: int| 0 <= b <= 0xFFFF && same_cell(address, b) ==> #[trigger] after.read(b) == val,
        forall|b: int|
            0 <= b <= 0xFFFF && !same_cell(address, b) ==> #[trigger] after.read(b) == m.read(b),
{
    if address <= 0x9FFF {
        assert(after == (MmuState { vram: m.vram.update(address - 0x8000, val), ..m }));
    } else if address <= 0xDFFF {
        assert(after == (MmuState { wram: m.wram.update(address - 0xC000, val), ..m }));
    } else if address <= 0xFDFF {
        assert(after == (MmuState { wram: m.wram.update(address - 0xE000, val), ..m }));
    } else if address <= 0xFE9F {
        assert(after == (MmuState { oam: m.oam.update(address - 0xFE00, val), ..m }));
    } else {
        assert(!is_apu_address(address as usize));
        assert(after == (MmuState { hram: m.hram.update(address - 0xFF80, val), ..m }));
    }
    assert forall|b: int| 0 <= b <= 0xFFFF && same_cell(address, b) implies #[trigger] after.read(b) == val by {
    }
    assert forall|b: int| 0 <= b <= 0xFFFF && !same_cell(address, b) implies #[trigger] after.read(b) == m.read(b) by {
        if b >= 0xFEA0 {
            assert(after.read_io(b) == m.read_io(b));
        }
    }
}

/// The echo of work RAM reads as work RAM.
pub proof fn lemma_echo_ram(m: MmuState, address: int)
    requires
        0xC000 <= address <= 0xDDFF,
    ensures
        m.read(address + 0x2000) == m.read(address),
{
}

/// The memory bus: boot ROM, cartridge, video, work and high RAM, object
/// attribute memory and the I/O registers.
pub struct MMU {
    interrupt_flags: u8,
    interrupt_enables: u8,
    boot_mode: bool,
    boot_rom: [u8; 0x100],
    cart: Option<Cartridge>,
    vram: [u8; 0x2000],
    bgp: u8,
    lcdc: u8,
    lcdstat: u8,
    scy: u8,
    scx: u8,
    ly: u8,
    apu: APU,
    wram: [u8; 0x2000],
    oam: [u8; 0xA0],
    hram: [u8; 0x7F],
    timer: Timer,
    wx: u8,
    wy: u8,
    obp0: u8,
    obp1: u8,
    lyc: u8,
    serial_transfer_data: u8,
    serial_transfer_control: u8,
    joypad: JoyPad,
    test: i8,
}

impl View for MMU {
    type V = MmuState;

    closed spec fn view(&self) -> MmuState {
        MmuState {
            interrupt_flags: self.interrupt_flags,
            interrupt_enables: self.interrupt_enables,
            boot_mode: self.boot_mode,
            boot_rom: self.boot_rom@,
            cart: self.cart,
            vram: self.vram@,
            bgp: self.bgp,
            lcdc: self.lcdc,
            lcdstat: self.lcdstat,
            scy: self.scy,
            scx: self.scx,
            ly: self.ly,
            apu: self.apu,
            wram: self.wram@,
            oam: self.oam@,
            hram: self.hram@,
            timer: self.timer,
            wx: self.wx,
            wy: self.wy,
            obp0: self.obp0,
            obp1: self.obp1,
            lyc: self.lyc,
            serial_transfer_data: self.serial_transfer_data,
            serial_transfer_control: self.serial_transfer_control,
            joypad: self.joypad,
            test: self.test,
        }
    }
}

impl MMU {
    pub fn test_mut(&mut self) -> (r: &mut i8)
        ensures
            *r == old(self)@.test,
            final(self)@ == (MmuState { test: *final(r), ..old(self)@ }),
    {
        &mut self.test
    }

    pub fn test(&self) -> (r: i8)
        ensures
            r == self@.test,
    {
        self.test
    }

    /// The bus at power-on: the boot ROM mapped over the cartridge, all RAM
    /// cleared, the LCD status at 0x84 and every other register at 0.
    pub fn new(boot_rom: [u8; 0x100], cartridge: Option<Cartridge>) -> (r: Self)
        requires
            cartridge matches Some(c) ==> c.wf() && c.banks_decodable(),
        ensures
            r@.wf(),
            r@.boot_mode,
            r@.boot_rom == boot_rom@,
            r@.cart == cartridge,
            r@.vram == Seq::new(0x2000, |i: int| 0u8),
            r@.wram == Seq::new(0x2000, |i: int| 0u8),
            r@.oam == Seq::new(0xA0, |i: int| 0u8),
            r@.hram == Seq::new(0x7F, |i: int| 0u8),
            r@.lcdstat == 0x84,
            r@.interrupt_flags == 0 && r@.interrupt_enables == 0,
            r@.bgp == 0 && r@.obp0 == 0 && r@.obp1 == 0 && r@.lcdc == 0,
            r@.scy == 0 && r@.scx == 0 && r@.ly == 0 && r@.lyc == 0 && r@.wx == 0 && r@.wy == 0,
            r@.serial_transfer_data == 0 && r@.serial_transfer_control == 0,
            r@.timer == (Timer { div: 0, tima: 0, tma: 0, tac: 0, apu_clock_step: 0 }),
            r@.apu.nr50 == 0 && r@.apu.nr51 == 0 && r@.apu.nr52 == 0,
            r@.apu.amps@ == Seq::<u16>::empty() && r@.apu.sample_counter == 0,
            r@.joypad.mode == crate::mmu::joypad::Mode::Unselected,
            r@.test == 0,
    {
        let r = Self {
            test: 0,
            interrupt_flags: 0,
            interrupt_enables: 0,
            boot_mode: true,
            boot_rom,
            cart: cartridge,
            vram: [0x00; 0x2000],
            bgp: 0,
            lcdc: 0,
            lcdstat: 0x84,
            scy: 0,
            scx: 0,
            ly: 0,
            apu: APU::default(),
            wram: [0; 0x2000],
            oam: [0; 0xA0],
            hram: [0; 0x7F],
            timer: Timer::default(),
            wx: 0,
            wy: 0,
            obp0: 0,
            obp1: 0,
            lyc: 0,
            joypad: JoyPad::default(),
            serial_transfer_control: 0,
            serial_transfer_data: 0,
        };
        assert(r@.vram =~= Seq::new(0x2000, |i: int| 0u8));
        assert(r@.wram =~= Seq::new(0x2000, |i: int| 0u8));
        assert(r@.oam =~= Seq::new(0xA0, |i: int| 0u8));
        assert(r@.hram =~= Seq::new(0x7F, |i: int| 0u8));
        r
    }

    fn cart_get(&self, address: usize) -> (r: u8)
        requires
            self@.wf(),
            self@.cart is Some,
            is_cart_address(address as int),
        ensures
            r == self@.cart_read(address as int),
    {
        match &self.cart {
            Some(c) => c.get(address),
            None => 0xFF,
        }
    }

    pub fn get(&self, address: u16) -> (r: u8)
        requires
            self@.wf(),
            self@.readable(address as int),
        ensures
            r == self@.read(address as int),
    {
        let a = address as usize;
        if address <= 0xFF {
            if self.boot_mode {
                self.boot_rom[a]
            } else {
                self.cart_get(a)
            }
        } else if address <= 0x7FFF {
            self.cart_get(a)
        } else if address <= 0x9FFF {
            self.vram[a - 0x8000]
        } else if address <= 0xBFFF {
            self.cart_get(a)
        } else if address <= 0xDFFF {
            self.wram[a - 0xC000]
        } else if address <= 0xFDFF {
            self.wram[a - 0xE000]
        } else if address <= 0xFE9F {
            self.oam[a - 0xFE00]
        } else {
            self.get_io(address)
        }
    }

    fn get_io(&self, address: u16) -> (r: u8)
        requires
            self@.wf(),
            address > 0xFE9F,
        ensures
            r == self@.read_io(address as int),
    {
        let a = address as usize;
        if address == 0xFF00 {
            self.joypad.bytes()
        } else if address == 0xFF01 {
            self.serial_transfer_data
        } else if address == 0xFF02 {
            self.serial_transfer_control
        } else if 0xFF04 <= address && address <= 0xFF07 {
            self.timer.get(a)
        } else if address == 0xFF0F {
            self.interrupt_flags
        } else if (0xFF10 <= address && address <= 0xFF14) || (0xFF16 <= address && address
            <= 0xFF1E) || (0xFF20 <= address && address <= 0xFF26) || (0xFF30 <= address
            && address <= 0xFF3F) {
            self.apu.get(a)
        } else if address == 0xFF40 {
            self.lcdc
        } else if address == 0xFF41 {
            self.lcdstat
        } else if address == 0xFF42 {
            self.scy
        } else if address == 0xFF43 {
            self.scx
        } else if address == 0xFF44 {
            self.ly
        } else if address == 0xFF45 {
            self.lyc
        } else if address == 0xFF47 {
            self.bgp
        } else if address == 0xFF48 {
            self.obp0
        } else if address == 0xFF49 {
            self.obp1
        } else if address == 0xFF4A {
            self.wy
        } else if address == 0xFF4B {
            self.wx
        } else if 0xFF80 <= address && address <= 0xFFFE {
            self.hram[a - 0xFF80]
        } else if address == 0xFFFF {
            self.interrupt_enables
        } else {
            0xFF
        }
    }

    #[verifier::spinoff_prover]
    #[verifier::rlimit(60)]
    pub fn set(&mut self, address: u16, val: u8)
        requires
            old(self)@.wf(),
            old(self)@.writable(address as int, val),
        ensures
            final(self)@.wf(),
            old(self)@.written(address as int, val, final(self)@),
    {
        let a = address as usize;
        if address <= 0x7FFF || (0xA000 <= address && address <= 0xBFFF) {
            if !(address <= 0x7FFF && self.boot_mode) {
                if let Some(c) = &mut self.cart {
                    c.set(a, val);
                }
            }
        } else if address <= 0x9FFF {
            self.vram[a - 0x8000] = val;
        } else if address <= 0xDFFF {
            self.wram[a - 0xC000] = val;
        } else if address <= 0xFDFF {
            self.wram[a - 0xE000] = val;
        } else if address <= 0xFE9F {
            self.oam[a - 0xFE00] = val;
        } else if (0xFF10 <= address && address <= 0xFF14) || (0xFF16 <= address && address
            <= 0xFF1E) || (0xFF20 <= address && address <= 0xFF26) || (0xFF30 <= address
            && address <= 0xFF3F) {
            self.apu.set(a, val);
        } else {
            self.set_io(address, val);
        }
    }

    #[verifier::spinoff_prover]
    #[verifier::rlimit(60)]
    fn set_io(&mut self, address: u16, val: u8)
        requires
            old(self)@.wf(),
            old(self)@.writable(address as int, val),
            address > 0xFE9F,
            !is_apu_address(address as usize),
        ensures
            final(self)@ == old(self)@.written_io(address as int, val),
    {
        let a = address as usize;
        if address == 0xFF00 {
            self.joypad.write(val);
        } else if address == 0xFF01 {
            self.serial_transfer_data = val;
        } else if address == 0xFF02 {
            self.serial_transfer_control = val;
        } else if 0xFF04 <= address && address <= 0xFF07 {
            self.timer.set(a, val);
        } else if address == 0xFF0F {
            self.interrupt_flags = val;
        } else if address == 0xFF40 {
            self.lcdc = val;
        } else if address == 0xFF41 {
            self.lcdstat = (self.lcdstat & 0b11) | (val & 0b1111_1100);
        } else if address == 0xFF42 {
            self.scy = val;
        } else if address == 0xFF43 {
            self.scx = val;
        } else if address == 0xFF45 {
            self.lyc = val;
        } else if address == 0xFF46 {
            self.dma(val);
        } else if address == 0xFF47 {
            self.bgp = val;
        } else if address == 0xFF48 {
            self.obp0 = val;
        } else if address == 0xFF49 {
            self.obp1 = val;
        } else if address == 0xFF4A {
            self.wy = val;
        } else if address == 0xFF4B {
            self.wx = if val < 7 {
                7
            } else {
                val
            };
        } else if address == 0xFF50 {
            self.boot_mode = false;
        } else if 0xFF80 <= address && address <= 0xFFFE {
            self.hram[a - 0xFF80] = val;
        } else if address == 0xFFFF {
            self.interrupt_enables = val;
        }
    }

    /// Copies 0x9F bytes from `page * 0x100` into the object attribute memory.
    fn dma(&mut self, page: u8)
        requires
            old(self)@.wf(),
            old(self)@.dma_readable(page),
        ensures
            final(self)@ == (MmuState { oam: old(self)@.dma_oam(page), ..old(self)@ }),
    {
        let ghost before = self@;
        let start: u16 = (page as u16) * 0x100;
        let mut i: u16 = 0;
        while i < DMA_LENGTH
            invariant
                0 <= i <= DMA_LENGTH,
                start == page as int * 0x100,
                before.wf(),
                before.dma_readable(page),
                self@ == (MmuState { oam: self@.oam, ..before }),
                self@.oam.len() == 0xA0,
                forall|j: int| 0 <= j < i ==> self@.oam[j] == before.read(start + j),
                forall|j: int| i <= j < 0xA0 ==> self@.oam[j] == before.oam[j],
            decreases DMA_LENGTH - i,
        {
            let address = start + i;
            assert(before.readable(page as int * 0x100 + i));
            assert(self@.read(address as int) == before.read(address as int));
            let v = self.get(address);
            self.oam[i as usize] = v;
            i = i + 1;
        }
        assert(self@.oam =~= before.dma_oam(page));
    }

    pub fn boot_rom(&self) -> (r: &[u8; 0x100])
        ensures
            r@ == self@.boot_rom,
    {
        &self.boot_rom
    }

    pub fn cartridge(&self) -> (r: &Option<Cartridge>)
        ensures
            *r == self@.cart,
    {
        &self.cart
    }

    pub fn vram(&self) -> (r: &[u8; 0x2000])
        ensures
            r@ == self@.vram,
    {
        &self.vram
    }

    pub fn hram(&self) -> (r: &[u8; 0x7F])
        ensures
            r@ == self@.hram,
    {
        &self.hram
    }

    pub fn wram(&self) -> (r: &[u8; 0x2000])
        ensures
            r@ == self@.wram,
    {
        &self.wram
    }

    pub fn apu(&self) -> (r: &APU)
        ensures
            *r == self@.apu,
    {
        &self.apu
    }

    /// Hands out the sound samples taken so far and starts a new batch.
    pub fn take_sound_data(&mut self) -> (r: Vec<u16>)
        ensures
            r@ == old(self)@.apu.amps@,
            final(self)@.apu.amps@ == Seq::<u16>::empty(),
            final(self)@ == (MmuState { apu: final(self)@.apu, ..old(self)@ }),
            final(self)@.apu == (APU { amps: final(self)@.apu.amps, ..old(self)@.apu }),
    {
        self.apu.get_data()
    }

    pub fn bgp(&self) -> (r: BGP)
        ensures
            r@ == self@.bgp,
    {
        self.bgp.into()
    }

    pub fn obp0(&self) -> (r: OBP)
        ensures
            r@ == self@.obp0,
    {
        self.obp0.into()
    }

    pub fn obp1(&self) -> (r: OBP)
        ensures
            r@ == self@.obp1,
    {
        self.obp1.into()
    }

    pub fn lcdstat(&self) -> (r: LCDSTAT)
        ensures
            r@ == self@.lcdstat,
    {
        self.lcdstat.into()
    }

    pub fn lcdc(&self) -> (r: LCDC)
        ensures
            r@ == self@.lcdc,
    {
        self.lcdc.into()
    }

    pub fn ly(&self) -> (r: u8)
        ensures
            r == self@.ly,
    {
        self.ly
    }

    pub fn set_ly(&mut self, val: u8)
        ensures
            final(self)@ == (MmuState { ly: val, ..old(self)@ }),
    {
        self.ly = val
    }

    pub fn scx(&self) -> (r: u8)
        ensures
            r == self@.scx,
    {
        self.scx
    }

    pub fn scy(&self) -> (r: u8)
        ensures
            r == self@.scy,
    {
        self.scy
    }

    pub fn set_lcdstat(&mut self, stat: LCDSTAT)
        ensures
            final(self)@ == (MmuState { lcdstat: stat@, ..old(self)@ }),
    {
        self.lcdstat = stat.into();
    }

    pub fn oam(&self) -> (r: &[u8; 0xA0])
        ensures
            r@ == self@.oam,
    {
        &self.oam
    }

    /// One timer cycle; the timer interrupt is requested when TIMA passes
    /// 0xFF.
    pub fn cycle_timer(&mut self)
        requires
            old(self)@.wf(),
        ensures
            old(self)@.timer_cycled(final(self)@),
    {
        if self.timer.cycle(&mut self.apu) {
            self.request_interrupt(InterruptRequest::Timer);
        }
    }

    pub fn cycle_apu(&mut self)
        requires
            old(self)@.wf(),
        ensures
            old(self)@.apu_cycled(final(self)@),
    {
        self.apu.cycle();
    }

    pub fn get_interrupt_flags(&self) -> (r: Interrupts)
        ensures
            r@ == self@.interrupt_flags,
    {
        self.interrupt_flags.into()
    }

    pub fn get_interrupt_enables(&self) -> (r: Interrupts)
        ensures
            r@ == self@.interrupt_enables,
    {
        self.interrupt_enables.into()
    }

    pub fn set_interrupt_flags(&mut self, flags: Interrupts)
        ensures
            final(self)@ == (MmuState { interrupt_flags: flags@, ..old(self)@ }),
    {
        self.interrupt_flags = flags.into();
    }

    pub fn set_interrupt_enables(&mut self, enables: Interrupts)
        ensures
            final(self)@ == (MmuState { interrupt_enables: enables@, ..old(self)@ }),
    {
        self.interrupt_enables = enables.into();
    }

    pub fn lyc(&self) -> (r: u8)
        ensures
            r == self@.lyc,
    {
        self.lyc
    }

    /// Raises the request's bit in IF.
    pub fn request_interrupt(&mut self, request: InterruptRequest)
        ensures
            final(self)@ == (MmuState {
                interrupt_flags: old(self)@.interrupt_flags | request.mask(),
                ..old(self)@
            }),
    {
        let mut iflag: Interrupts = self.interrupt_flags.into();
        iflag.enable_request(request);
        self.interrupt_flags = iflag.into();
    }

    /// Presses a key and requests the joypad interrupt.
    pub fn joypad_press(&mut self, key: Key)
        ensures
            final(self)@ == (MmuState {
                joypad: old(self)@.joypad.with_key(key, true),
                interrupt_flags: old(self)@.interrupt_flags | InterruptRequest::Joypad.mask(),
                ..old(self)@
            }),
    {
        self.joypad.press(key);
        self.request_interrupt(InterruptRequest::Joypad);
    }

    pub fn joypad_release(&mut self, key: Key)
        ensures
            final(self)@ == (MmuState { joypad: old(self)@.joypad.with_key(key, false), ..old(self)@ }),
    {
        self.joypad.release(key);
    }

    pub fn wx(&self) -> (r: u8)
        ensures
            r == self@.wx,
    {
        self.wx
    }

    pub fn wy(&self) -> (r: u8)
        ensures
            r == self@.wy,
    {
        self.wy
    }
}

} // verus!
