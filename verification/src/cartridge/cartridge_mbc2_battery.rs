use vstd::prelude::*;
use crate::cartridge::{byte_at, byte_or_ff, banked_index, banked_offset, bank_or_one};
use crate::cartridge::metadata::{Metadata, MetadataView};

verus! {

/// The size of the built-in RAM of an MBC2, in 4-bit cells.
pub const MBC2_RAM_SIZE: usize = 512;

/// Where an access to the RAM window lands: the RAM is mirrored every 512
/// bytes.
pub open spec fn mbc2_ram_offset(address: int) -> int {
    address % 0x200
}

/// Whether a register write goes to the RAM enable register: bit 8 of the
/// address is clear. Where it is set, the write selects the ROM bank.
pub open spec fn selects_ram_enable(address: int) -> bool {
    address % 0x200 < 0x100
}

/// An MBC2 cartridge: up to 16 ROM banks and 512 cells of battery-backed
/// RAM, each holding a nibble.
pub struct CartridgeMBC2Battery {
    metadata: Metadata,
    rom_hi_bank_number: u16,
    ram_enabled: bool,
    data: Vec<u8>,
    ram: Vec<u8>,
}

impl CartridgeMBC2Battery {
    pub closed spec fn wf(&self) -> bool {
        self.ram@.len() == MBC2_RAM_SIZE
    }

    /// The RAM holds exactly its 512 cells.
    pub proof fn lemma_ram_len(&self)
        requires
            self.wf(),
        ensures
            self.ram().len() == MBC2_RAM_SIZE,
    {
    }

    pub closed spec fn rom(&self) -> Seq<u8> {
        self.data@
    }

    pub closed spec fn ram(&self) -> Seq<u8> {
        self.ram@
    }

    pub closed spec fn header(&self) -> MetadataView {
        self.metadata@
    }

    pub closed spec fn rom_bank(&self) -> int {
        self.rom_hi_bank_number as int
    }

    pub closed spec fn ram_enabled(&self) -> bool {
        self.ram_enabled
    }

    /// What a read of `address` gives: the two ROM windows, then the RAM cell
    /// where the RAM is enabled and 0xFF where it is not.
    pub open spec fn read(&self, address: int) -> u8 {
        if address <= 0x3FFF {
            byte_or_ff(self.rom(), address)
        } else if address <= 0x7FFF {
            byte_or_ff(self.rom(), banked_offset(self.rom_bank(), address))
        } else if self.ram_enabled() {
            self.ram()[mbc2_ram_offset(address)]
        } else {
            0xFF
        }
    }

    /// A write of `val` to `address` turns this cartridge into `after`: below
    /// 0x4000 it enables the RAM (low nibble 0xA) or selects the ROM bank (low
    /// nibble, 0 meaning 1) as bit 8 of the address says; the RAM window
    /// stores the low nibble of `val` where the RAM is enabled.
    pub closed spec fn written(&self, address: int, val: u8, after: &Self) -> bool {
        &&& after.metadata@ == self.metadata@
        &&& after.data@ == self.data@
        &&& after.ram_enabled == if address <= 0x3FFF && selects_ram_enable(address) {
            val & 0xF == 0xA
        } else {
            self.ram_enabled
        }
        &&& after.rom_hi_bank_number == if address <= 0x3FFF && !selects_ram_enable(address) {
            bank_or_one((val & 0xF) as int)
        } else {
            self.rom_hi_bank_number as int
        }
        &&& after.ram@ == if 0xA000 <= address && self.ram_enabled {
            self.ram@.update(mbc2_ram_offset(address), val & 0xF)
        } else {
            self.ram@
        }
    }

    /// A cartridge whose RAM starts from `save`, the contents of a save file,
    /// where there is one, and cleared otherwise.
    pub fn new(save: Option<Vec<u8>>, metadata: Metadata, bytes: Vec<u8>) -> (r: Self)
        requires
            save matches Some(s) ==> s@.len() == MBC2_RAM_SIZE,
        ensures
            r.wf(),
            r.header() == metadata@,
            r.rom() == bytes@,
            r.ram() == match save {
                Some(s) => s@,
                None => Seq::new(MBC2_RAM_SIZE as nat, |i: int| 0u8),
            },
            r.rom_bank() == 1,
            !r.ram_enabled(),
    {
        let ram = match save {
            Some(s) => s,
            None => {
                let cleared = vec![0u8; MBC2_RAM_SIZE];
                proof {
                    assert(cleared@ =~= Seq::new(MBC2_RAM_SIZE as nat, |i: int| 0u8));
                }
                cleared
            },
        };
        Self { metadata, rom_hi_bank_number: 1, ram_enabled: false, data: bytes, ram }
    }

    pub fn get(&self, address: usize) -> (r: u8)
        requires
            self.wf(),
            crate::cartridge::is_cart_address(address as int),
        ensures
            r == self.read(address as int),
    {
        if address <= 0x3FFF {
            byte_at(&self.data, address)
        } else if address <= 0x7FFF {
            byte_at(&self.data, banked_index(self.rom_hi_bank_number, address))
        } else if self.ram_enabled {
            assert(address & 0x1FF == address % 0x200) by (bit_vector);
            self.ram[address & 0x1FF]
        } else {
            0xFF
        }
    }

    pub fn set(&mut self, address: usize, val: u8)
        requires
            old(self).wf(),
            crate::cartridge::is_cart_address(address as int),
        ensures
            final(self).wf(),
            old(self).written(address as int, val, final(self)),
    {
        if address <= 0x3FFF {
            assert((address & 0x100 == 0) == (address % 0x200 < 0x100)) by (bit_vector);
            if address & 0x100 == 0 {
                self.ram_enabled = val & 0xF == 0xA;
            } else {
                self.rom_hi_bank_number = if val & 0xF == 0 {
                    1
                } else {
                    (val & 0xF) as u16
                };
            }
        } else if 0xA000 <= address && self.ram_enabled {
            assert(address & 0x1FF == address % 0x200) by (bit_vector);
            self.ram.set(address & 0x1FF, val & 0xF);
        }
    }

    pub fn data(&self) -> (r: &Vec<u8>)
        ensures
            r@ == self.rom(),
    {
        &self.data
    }

    pub fn metadata(&self) -> (r: &Metadata)
        ensures
            r@ == self.header(),
    {
        &self.metadata
    }

    /// The battery-backed RAM, as a save file holds it.
    pub fn save_data(&self) -> (r: &Vec<u8>)
        ensures
            r@ == self.ram(),
    {
        &self.ram
    }

    /// A write never changes the ROM image.
    pub proof fn lemma_written_keeps_rom(&self, address: int, val: u8, after: &Self)
        requires
            self.written(address, val, after),
        ensures
            after.rom() == self.rom(),
    {
    }

    /// A value written to enabled RAM reads back as its low nibble, at its
    /// address and every mirror of it.
    pub proof fn lemma_ram_read_after_write(&self, address: int, val: u8, after: &Self, mirror: int)
        requires
            self.wf(),
            self.ram_enabled(),
            0xA000 <= address <= 0xBFFF,
            0xA000 <= mirror <= 0xBFFF,
            mirror % 0x200 == address % 0x200,
            self.written(address, val, after),
        ensures
            after.read(mirror) == val & 0xF,
    {
    }

    /// What a write leaves, seen through the cartridge's observers: the ROM
    /// and header stay, and the RAM enable, the ROM bank and the RAM change as
    /// `written` says.
    pub proof fn lemma_written_observed(&self, address: int, val: u8, after: &Self)
        requires
            self.written(address, val, after),
        ensures
            after.rom() == self.rom(),
            after.header() == self.header(),
            after.ram_enabled() == if address <= 0x3FFF && selects_ram_enable(address) {
                val & 0xF == 0xA
            } else {
                self.ram_enabled()
            },
            after.rom_bank() == if address <= 0x3FFF && !selects_ram_enable(address) {
                bank_or_one((val & 0xF) as int)
            } else {
                self.rom_bank()
            },
            after.ram() == if 0xA000 <= address && self.ram_enabled() {
                self.ram().update(mbc2_ram_offset(address), val & 0xF)
            } else {
                self.ram()
            },
    {
    }
}

} // verus!
