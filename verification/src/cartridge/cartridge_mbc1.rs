use vstd::prelude::*;
use crate::cartridge::{
    byte_at, byte_or_ff, banked_index, banked_offset, is_mbc1_bank_count, mbc1_bank_mask,
    rom_number_bit_mask, bank_or_one, lemma_mbc1_mask_reaches_every_bank,
};
use crate::cartridge::metadata::{Metadata, MetadataView};

verus! {

broadcast use crate::bits::group_bits;

/// An MBC1 cartridge without RAM: a fixed ROM bank at 0x0000 and a switchable
/// one at 0x4000.
pub struct CartridgeMBC1 {
    metadata: Metadata,
    rom_hi_bank_number: u16,
    ram_bank_number: u8,
    switchable_mode: bool,
    data: Vec<u8>,
}

impl CartridgeMBC1 {
    /// Every MBC1 cartridge without RAM is well formed; what a bank-select
    /// write needs is `banks_decodable`.
    pub closed spec fn wf(&self) -> bool {
        true
    }

    /// Whether the ROM size is one whose bank numbers this controller
    /// decodes (2 to 128 banks); a bank-select write needs it.
    pub open spec fn banks_decodable(&self) -> bool {
        is_mbc1_bank_count(self.header().rom_size.bank_size)
    }

    pub closed spec fn rom(&self) -> Seq<u8> {
        self.data@
    }

    pub closed spec fn header(&self) -> MetadataView {
        self.metadata@
    }

    /// The bank mapped at 0x4000.
    pub closed spec fn rom_bank(&self) -> int {
        self.rom_hi_bank_number as int
    }

    pub closed spec fn switchable_mode(&self) -> bool {
        self.switchable_mode
    }

    /// What a read of `address` gives: the fixed bank, the switchable bank,
    /// and 0xFF for the external RAM that this cartridge lacks.
    pub open spec fn read(&self, address: int) -> u8 {
        if address <= 0x3FFF {
            byte_or_ff(self.rom(), address)
        } else if address <= 0x7FFF {
            byte_or_ff(self.rom(), banked_offset(self.rom_bank(), address))
        } else {
            0xFF
        }
    }

    /// A write of `val` to `address` turns this cartridge into `after`: 0x2000
    /// to 0x3FFF selects the ROM bank among the bits that the ROM size
    /// decodes, 0x6000 to 0x7FFF sets the banking mode, and nothing else
    /// changes.
    pub closed spec fn written(&self, address: int, val: u8, after: &Self) -> bool {
        &&& after.metadata@ == self.metadata@
        &&& after.data@ == self.data@
        &&& after.ram_bank_number == self.ram_bank_number
        &&& after.rom_hi_bank_number == if 0x2000 <= address <= 0x3FFF {
            bank_or_one((val & mbc1_bank_mask(self.metadata@.rom_size.bank_size)) as int)
        } else {
            self.rom_hi_bank_number as int
        }
        &&& after.switchable_mode == if 0x6000 <= address <= 0x7FFF {
            val & 1 == 1
        } else {
            self.switchable_mode
        }
    }

    pub fn new(metadata: Metadata, bytes: Vec<u8>) -> (r: Self)
        ensures
            r.wf(),
            r.header() == metadata@,
            r.rom() == bytes@,
            r.rom_bank() == 1,
            !r.switchable_mode(),
    {
        Self {
            metadata,
            rom_hi_bank_number: 1,
            ram_bank_number: 0,
            switchable_mode: false,
            data: bytes,
        }
    }

    pub fn get(&self, address: usize) -> (r: u8)
        requires
            crate::cartridge::is_cart_address(address as int),
        ensures
            r == self.read(address as int),
    {
        if address <= 0x3FFF {
            byte_at(&self.data, address)
        } else if address <= 0x7FFF {
            byte_at(&self.data, banked_index(self.rom_hi_bank_number, address))
        } else {
            0xFF
        }
    }

    pub fn set(&mut self, address: usize, val: u8)
        requires
            old(self).wf(),
            crate::cartridge::is_cart_address(address as int),
            0x2000 <= address <= 0x3FFF ==> old(self).banks_decodable(),
        ensures
            final(self).wf(),
            final(self).header() == old(self).header(),
            old(self).written(address as int, val, final(self)),
    {
        if 0x2000 <= address && address <= 0x3FFF {
            let new = (val & rom_number_bit_mask(self.metadata.rom_size().bank_size)) as u16;
            self.rom_hi_bank_number = if new == 0 {
                1
            } else {
                new
            };
        } else if 0x6000 <= address && address <= 0x7FFF {
            self.switchable_mode = val & 1 == 1;
        }
    }

    pub fn data(&self) -> (r: &Vec<u8>)
        ensures
            r@ == self.rom(),
    {
        &self.data
    }

    /// A write never changes the ROM image.
    pub proof fn lemma_written_keeps_rom(&self, address: int, val: u8, after: &Self)
        requires
            self.written(address, val, after),
        ensures
            after.rom() == self.rom(),
    {
    }

    /// After a bank select, the switchable window reads the selected bank,
    /// bank 0 standing for bank 1.
    pub proof fn lemma_bank_select(&self, address: int, val: u8, after: &Self, at: int)
        requires
            self.written(address, val, after),
            0x2000 <= address <= 0x3FFF,
            0x4000 <= at <= 0x7FFF,
        ensures
            after.read(at) == byte_or_ff(
                self.rom(),
                0x4000 * bank_or_one((val & mbc1_bank_mask(self.header().rom_size.bank_size)) as int) + (at - 0x4000),
            ),
    {
    }

    /// On a ROM of 2 to 32 banks, every bank but bank 0 can be selected:
    /// writing its number `k` to 0x2000 to 0x3FFF maps bank `k` at 0x4000.
    pub proof fn lemma_select_any_bank(&self, address: int, k: u8, after: &Self, at: int)
        requires
            self.banks_decodable(),
            self.header().rom_size.bank_size <= 32,
            1 <= k < self.header().rom_size.bank_size,
            self.written(address, k, after),
            0x2000 <= address <= 0x3FFF,
            0x4000 <= at <= 0x7FFF,
        ensures
            after.rom_bank() == k,
            after.read(at) == byte_or_ff(self.rom(), 0x4000 * k + (at - 0x4000)),
    {
        lemma_mbc1_mask_reaches_every_bank(self.header().rom_size.bank_size, k, k);
    }
}

} // verus!
