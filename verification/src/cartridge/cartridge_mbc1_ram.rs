use vstd::prelude::*;
use crate::cartridge::{
    byte_at, byte_or_ff, banked_index, banked_offset, is_mbc1_bank_count, mbc1_bank_mask,
    rom_number_bit_mask, bank_or_one, lemma_mbc1_mask_reaches_every_bank,
};
use crate::cartridge::cartridge_type::CartridgeType;
use crate::cartridge::metadata::{Metadata, MetadataView};
use crate::cartridge::ram_size_type::is_table_ram_size;

verus! {

broadcast use crate::bits::group_bits;

/// Whether external RAM of this many banks is addressed by this cartridge:
/// one bank of 2 or 8 KiB, or two, mirrored over the 8 KiB window.
pub open spec fn addressable_ram(banks: u16) -> bool {
    banks == 1 || banks == 2
}

/// Where an access to the external RAM window lands in RAM of `size` bytes.
pub open spec fn ram_offset(address: int, size: int) -> int {
    (address - 0xA000) % size
}

/// An MBC1 cartridge with external RAM.
pub struct CartridgeMBC1Ram {
    metadata: Metadata,
    rom_hi_bank_number: u16,
    ram_bank_number: u8,
    ram_enabled: bool,
    switchable_mode: bool,
    data: Vec<u8>,
    ram: Vec<u8>,
}

impl CartridgeMBC1Ram {
    pub closed spec fn wf(&self) -> bool {
        &&& self.ram@.len() == self.metadata@.ram_size.size
        &&& is_table_ram_size(self.metadata@.ram_size)
        &&& addressable_ram(self.metadata@.ram_size.bank_size) ==> self.ram@.len() > 0
    }

    pub closed spec fn rom(&self) -> Seq<u8> {
        self.data@
    }

    pub closed spec fn ram(&self) -> Seq<u8> {
        self.ram@
    }

    pub closed spec fn header(&self) -> MetadataView {
        self.metadata@
    }

    pub closed spec fn rom_bank(&self) -> int {
        self.rom_hi_bank_number as int
    }

    pub closed spec fn ram_enabled(&self) -> bool {
        self.ram_enabled
    }

    /// Whether the external RAM window reaches the RAM: it is enabled and of
    /// a size that this cartridge addresses.
    pub open spec fn ram_reachable(&self) -> bool {
        self.ram_enabled() && addressable_ram(self.header().ram_size.bank_size)
    }

    /// What a read of `address` gives: the two ROM windows, then the RAM where
    /// it is reachable and 0xFF where it is not.
    pub open spec fn read(&self, address: int) -> u8 {
        if address <= 0x3FFF {
            byte_or_ff(self.rom(), address)
        } else if address <= 0x7FFF {
            byte_or_ff(self.rom(), banked_offset(self.rom_bank(), address))
        } else if self.ram_reachable() {
            self.ram()[ram_offset(address, self.ram().len() as int)]
        } else {
            0xFF
        }
    }

    /// A write of `val` to `address` turns this cartridge into `after`:
    /// 0x0000 to 0x1FFF enables the RAM when its low nibble is 0xA and
    /// disables it otherwise, 0x2000 to 0x3FFF selects the ROM bank, 0x4000 to
    /// 0x5FFF ors two bits into the RAM bank number, 0x6000 to 0x7FFF sets the
    /// banking mode, and the RAM window stores `val` where the RAM is reachable.
    pub closed spec fn written(&self, address: int, val: u8, after: &Self) -> bool {
        &&& after.metadata@ == self.metadata@
        &&& after.data@ == self.data@
        &&& after.ram_enabled == if address <= 0x1FFF {
            val & 0xF == 0xA
        } else {
            self.ram_enabled
        }
        &&& after.rom_hi_bank_number == if 0x2000 <= address <= 0x3FFF {
            bank_or_one((val & mbc1_bank_mask(self.metadata@.rom_size.bank_size)) as int)
        } else {
            self.rom_hi_bank_number as int
        }
        &&& after.ram_bank_number == if 0x4000 <= address <= 0x5FFF {
            self.ram_bank_number | (val & 0b11)
        } else {
            self.ram_bank_number
        }
        &&& after.switchable_mode == if 0x6000 <= address <= 0x7FFF {
            val & 1 == 1
        } else {
            self.switchable_mode
        }
        &&& after.ram@ == if 0xA000 <= address && self.ram_reachable() {
            self.ram@.update(ram_offset(address, self.ram@.len() as int), val)
        } else {
            self.ram@
        }
    }

    /// Whether the ROM size is one whose bank numbers this controller
    /// decodes (2 to 128 banks); a bank-select write needs it.
    pub open spec fn banks_decodable(&self) -> bool {
        is_mbc1_bank_count(self.header().rom_size.bank_size)
    }

    /// The RAM is no larger than the largest size of the header table.
    pub proof fn lemma_ram_len(&self)
        requires
            self.wf(),
        ensures
            self.ram().len() <= 128192,
    {
    }

    /// Whether the header names the battery-backed variant, whose RAM is kept
    /// in a save file.
    pub fn is_battery(&self) -> (r: bool)
        ensures
            r == (self.header().cartridge_type == CartridgeType::RomMbc1RamBattery),
    {
        match self.metadata.cartridge_type() {
            CartridgeType::RomMbc1RamBattery => true,
            _ => false,
        }
    }

    /// The RAM, as a save file holds it.
    pub fn save_data(&self) -> (r: &Vec<u8>)
        ensures
            r@ == self.ram(),
    {
        &self.ram
    }

    pub fn new(metadata: Metadata, bytes: Vec<u8>) -> (r: Self)
        ensures
            r.wf(),
            r.header() == metadata@,
            r.rom() == bytes@,
            r.ram() == Seq::new(metadata@.ram_size.size as nat, |i: int| 0u8),
            r.rom_bank() == 1,
            !r.ram_enabled(),
    {
        Self::new_with_save(None, metadata, bytes)
    }

    /// A cartridge whose RAM starts from `save`, the contents of a save file,
    /// where there is one, and cleared otherwise.
    pub fn new_with_save(save: Option<Vec<u8>>, metadata: Metadata, bytes: Vec<u8>) -> (r: Self)
        requires
            save matches Some(s) ==> s@.len() == metadata@.ram_size.size,
        ensures
            r.wf(),
            r.header() == metadata@,
            r.rom() == bytes@,
            r.ram() == match save {
                Some(s) => s@,
                None => Seq::new(metadata@.ram_size.size as nat, |i: int| 0u8),
            },
            r.rom_bank() == 1,
            !r.ram_enabled(),
    {
        let size = metadata.ram_size().size;
        let ram = match save {
            Some(s) => s,
            None => {
                let cleared = vec![0u8; size as usize];
                proof {
                    assert(cleared@ =~= Seq::new(metadata@.ram_size.size as nat, |i: int| 0u8));
                }
                cleared
            },
        };
        Self {
            metadata,
            rom_hi_bank_number: 1,
            ram_bank_number: 0,
            ram_enabled: false,
            switchable_mode: false,
            data: bytes,
            ram,
        }
    }

    fn ram_index(&self, address: usize) -> (r: usize)
        requires
            self.wf(),
            self.ram_reachable(),
            0xA000 <= address <= 0xBFFF,
        ensures
            r == ram_offset(address as int, self.ram@.len() as int),
            r < self.ram@.len(),
    {
        (address - 0xA000) % self.ram.len()
    }

    pub fn get(&self, address: usize) -> (r: u8)
        requires
            self.wf(),
            crate::cartridge::is_cart_address(address as int),
        ensures
            r == self.read(address as int),
    {
        if address <= 0x3FFF {
            byte_at(&self.data, address)
        } else if address <= 0x7FFF {
            byte_at(&self.data, banked_index(self.rom_hi_bank_number, address))
        } else {
            let banks = self.metadata.ram_size().bank_size;
            if self.ram_enabled && (banks == 1 || banks == 2) {
                self.ram[self.ram_index(address)]
            } else {
                0xFF
            }
        }
    }

    pub fn set(&mut self, address: usize, val: u8)
        requires
            old(self).wf(),
            crate::cartridge::is_cart_address(address as int),
            0x2000 <= address <= 0x3FFF ==> old(self).banks_decodable(),
        ensures
            final(self).wf(),
            final(self).header() == old(self).header(),
            old(self).written(address as int, val, final(self)),
    {
        if address <= 0x1FFF {
            self.ram_enabled = val & 0xF == 0xA;
        } else if address <= 0x3FFF {
            let new = (val & rom_number_bit_mask(self.metadata.rom_size().bank_size)) as u16;
            self.rom_hi_bank_number = if new == 0 {
                1
            } else {
                new
            };
        } else if address <= 0x5FFF {
            self.ram_bank_number = self.ram_bank_number | (val & 0b11);
        } else if address <= 0x7FFF {
            self.switchable_mode = val & 1 == 1;
        } else {
            let banks = self.metadata.ram_size().bank_size;
            if self.ram_enabled && (banks == 1 || banks == 2) {
                let i = self.ram_index(address);
                self.ram.set(i, val);
            }
        }
    }

    pub fn data(&self) -> (r: &Vec<u8>)
        ensures
            r@ == self.rom(),
    {
        &self.data
    }

    /// A write never changes the ROM image.
    pub proof fn lemma_written_keeps_rom(&self, address: int, val: u8, after: &Self)
        requires
            self.written(address, val, after),
        ensures
            after.rom() == self.rom(),
    {
    }

    /// A byte written to reachable RAM reads back.
    pub proof fn lemma_ram_read_after_write(&self, address: int, val: u8, after: &Self)
        requires
            self.wf(),
            self.ram_reachable(),
            0xA000 <= address <= 0xBFFF,
            self.written(address, val, after),
        ensures
            after.read(address) == val,
    {
    }

    /// What a write leaves, seen through the cartridge's observers: the ROM
    /// and header stay, and the RAM enable, the ROM bank and the RAM change as
    /// `written` says.
    pub proof fn lemma_written_observed(&self, address: int, val: u8, after: &Self)
        requires
            self.written(address, val, after),
        ensures
            after.rom() == self.rom(),
            after.header() == self.header(),
            after.ram_enabled() == if address <= 0x1FFF {
                val & 0xF == 0xA
            } else {
                self.ram_enabled()
            },
            after.rom_bank() == if 0x2000 <= address <= 0x3FFF {
                bank_or_one((val & mbc1_bank_mask(self.header().rom_size.bank_size)) as int)
            } else {
                self.rom_bank()
            },
            after.ram() == if 0xA000 <= address && self.ram_reachable() {
                self.ram().update(ram_offset(address, self.ram().len() as int), val)
            } else {
                self.ram()
            },
    {
    }

    /// On a ROM of 2 to 32 banks, every bank but bank 0 can be selected:
    /// writing its number `k` to 0x2000 to 0x3FFF maps bank `k` at 0x4000.
    pub proof fn lemma_select_any_bank(&self, address: int, k: u8, after: &Self, at: int)
        requires
            self.banks_decodable(),
            self.header().rom_size.bank_size <= 32,
            1 <= k < self.header().rom_size.bank_size,
            self.written(address, k, after),
            0x2000 <= address <= 0x3FFF,
            0x4000 <= at <= 0x7FFF,
        ensures
            after.rom_bank() == k,
            after.read(at) == byte_or_ff(self.rom(), 0x4000 * k + (at - 0x4000)),
    {
        lemma_mbc1_mask_reaches_every_bank(self.header().rom_size.bank_size, k, k);
    }
}

} // verus!
