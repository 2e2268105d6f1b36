use vstd::prelude::*;
use crate::cartridge::{byte_at, byte_or_ff, banked_index, banked_offset};

verus! {

/// An MBC5 cartridge: a 9-bit ROM bank number written a byte at a time. Its
/// external RAM is not mapped: reads give 0xFF.
pub struct CartridgeMBC5 {
    rom_hi_bank_number: u16,
    ram_bank_number: u8,
    switchable_mode: bool,
    data: Vec<u8>,
}

impl CartridgeMBC5 {
    pub closed spec fn rom(&self) -> Seq<u8> {
        self.data@
    }

    pub closed spec fn rom_bank(&self) -> int {
        self.rom_hi_bank_number as int
    }

    pub closed spec fn ram_bank(&self) -> int {
        self.ram_bank_number as int
    }

    pub open spec fn read(&self, address: int) -> u8 {
        if address <= 0x3FFF {
            byte_or_ff(self.rom(), address)
        } else if address <= 0x7FFF {
            byte_or_ff(self.rom(), banked_offset(self.rom_bank(), address))
        } else {
            0xFF
        }
    }

    /// A write of `val` to `address` turns this cartridge into `after`:
    /// 0x2000 to 0x2FFF replaces the low byte of the ROM bank number, 0x3000 to
    /// 0x3FFF its high byte, 0x4000 to 0x5FFF selects the RAM bank.
    pub closed spec fn written(&self, address: int, val: u8, after: &Self) -> bool {
        &&& after.data@ == self.data@
        &&& after.switchable_mode == self.switchable_mode
        &&& after.rom_hi_bank_number == if 0x2000 <= address <= 0x2FFF {
            (self.rom_hi_bank_number & 0xFF00) | (val as u16)
        } else if 0x3000 <= address <= 0x3FFF {
            (self.rom_hi_bank_number & 0x00FF) | ((val as u16) << 8u16)
        } else {
            self.rom_hi_bank_number
        }
        &&& after.ram_bank_number == if 0x4000 <= address <= 0x5FFF {
            val
        } else {
            self.ram_bank_number
        }
    }

    pub fn new(bytes: Vec<u8>) -> (r: Self)
        ensures
            r.rom() == bytes@,
            r.rom_bank() == 1,
            r.ram_bank() == 0,
    {
        Self { rom_hi_bank_number: 1, ram_bank_number: 0, switchable_mode: false, data: bytes }
    }

    pub fn get(&self, address: usize) -> (r: u8)
        requires
            crate::cartridge::is_cart_address(address as int),
        ensures
            r == self.read(address as int),
    {
        if address <= 0x3FFF {
            byte_at(&self.data, address)
        } else if address <= 0x7FFF {
            byte_at(&self.data, banked_index(self.rom_hi_bank_number, address))
        } else {
            0xFF
        }
    }

    pub fn set(&mut self, address: usize, val: u8)
        requires
            crate::cartridge::is_cart_address(address as int),
        ensures
            old(self).written(address as int, val, final(self)),
    {
        if 0x2000 <= address && address <= 0x2FFF {
            self.rom_hi_bank_number = (self.rom_hi_bank_number & 0xFF00) | (val as u16);
        } else if 0x3000 <= address && address <= 0x3FFF {
            self.rom_hi_bank_number = (self.rom_hi_bank_number & 0x00FF) | ((val as u16) << 8u16);
        } else if 0x4000 <= address && address <= 0x5FFF {
            self.ram_bank_number = val;
        }
    }

    pub fn data(&self) -> (r: &Vec<u8>)
        ensures
            r@ == self.rom(),
    {
        &self.data
    }

    /// A write never changes the ROM image.
    pub proof fn lemma_written_keeps_rom(&self, address: int, val: u8, after: &Self)
        requires
            self.written(address, val, after),
        ensures
            after.rom() == self.rom(),
    {
    }
}

} // verus!
