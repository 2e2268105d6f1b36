use vstd::prelude::*;
use crate::cartridge::{byte_at, byte_or_ff, banked_index, banked_offset, bank_or_one};
use crate::cartridge::metadata::{Metadata, MetadataView};
use crate::cartridge::ram_size_type::is_table_ram_size;

verus! {

/// What the external RAM window maps: a RAM bank, the clock registers, or,
/// until a bank or register is selected, nothing.
#[derive(Debug, Copy, Clone, PartialEq, Eq, Structural)]
pub enum RamRtcMode {
    Ram,
    Rtc,
    NoMode,
}

/// Where an access to the external RAM window lands in the RAM.
pub open spec fn mbc3_ram_offset(bank: int, address: int) -> int {
    0x2000 * bank + (address - 0xA000)
}

/// An MBC3 cartridge with battery-backed RAM. Its real-time clock registers
/// can be selected but hold nothing: reads of them give 0xFF and writes are
/// ignored.
pub struct CartridgeMBC3RamBattery {
    metadata: Metadata,
    rom_hi_bank_number: u16,
    ram_bank_number: u8,
    ram_rtc_enabled: bool,
    switchable_mode: bool,
    ram_rtc_mode: RamRtcMode,
    rtc_data_latch_writes: u8,
    data: Vec<u8>,
    ram: Vec<u8>,
}

impl CartridgeMBC3RamBattery {
    pub closed spec fn wf(&self) -> bool {
        &&& self.ram@.len() == self.metadata@.ram_size.size
        &&& is_table_ram_size(self.metadata@.ram_size)
        &&& self.ram_bank_number <= 3
    }

    /// The RAM is no larger than the largest size of the header table.
    pub proof fn lemma_ram_len(&self)
        requires
            self.wf(),
        ensures
            self.ram().len() <= 128192,
    {
    }

    pub closed spec fn rom(&self) -> Seq<u8> {
        self.data@
    }

    pub closed spec fn ram(&self) -> Seq<u8> {
        self.ram@
    }

    pub closed spec fn header(&self) -> MetadataView {
        self.metadata@
    }

    pub closed spec fn rom_bank(&self) -> int {
        self.rom_hi_bank_number as int
    }

    pub closed spec fn ram_bank(&self) -> int {
        self.ram_bank_number as int
    }

    pub closed spec fn mode(&self) -> RamRtcMode {
        self.ram_rtc_mode
    }

    pub closed spec fn ram_enabled(&self) -> bool {
        self.ram_rtc_enabled
    }

    /// Whether the external RAM window reaches a RAM byte at `address`: RAM
    /// is mapped, enabled, and large enough for the selected bank.
    pub open spec fn ram_reachable(&self, address: int) -> bool {
        &&& self.mode() == RamRtcMode::Ram
        &&& self.ram_enabled()
        &&& mbc3_ram_offset(self.ram_bank(), address) < self.ram().len()
    }

    /// What a read of `address` gives: the two ROM windows, then the RAM byte
    /// where it is reachable and 0xFF elsewhere.
    pub open spec fn read(&self, address: int) -> u8 {
        if address <= 0x3FFF {
            byte_or_ff(self.rom(), address)
        } else if address <= 0x7FFF {
            byte_or_ff(self.rom(), banked_offset(self.rom_bank(), address))
        } else if self.ram_reachable(address) {
            self.ram()[mbc3_ram_offset(self.ram_bank(), address)]
        } else {
            0xFF
        }
    }

    /// A write of `val` to `address` turns this cartridge into `after`:
    /// 0x0000 to 0x1FFF enables RAM and clock (low nibble 0xA), 0x2000 to
    /// 0x3FFF selects the ROM bank (0 meaning 1), 0x4000 to 0x5FFF maps RAM
    /// bank 0 to 3 or a clock register (0x08 to 0x0C), 0x6000 to 0x7FFF
    /// records the latch value, and the RAM window stores `val` where RAM is
    /// reachable.
    pub closed spec fn written(&self, address: int, val: u8, after: &Self) -> bool {
        &&& after.metadata@ == self.metadata@
        &&& after.data@ == self.data@
        &&& after.switchable_mode == self.switchable_mode
        &&& after.ram_rtc_enabled == if address <= 0x1FFF {
            val & 0xF == 0xA
        } else {
            self.ram_rtc_enabled
        }
        &&& after.rom_hi_bank_number == if 0x2000 <= address <= 0x3FFF {
            bank_or_one(val as int)
        } else {
            self.rom_hi_bank_number as int
        }
        &&& after.ram_rtc_mode == if 0x4000 <= address <= 0x5FFF && val <= 0x03 {
            RamRtcMode::Ram
        } else if 0x4000 <= address <= 0x5FFF && 0x08 <= val <= 0x0C {
            RamRtcMode::Rtc
        } else {
            self.ram_rtc_mode
        }
        &&& after.ram_bank_number == if 0x4000 <= address <= 0x5FFF && val <= 0x03 {
            val
        } else {
            self.ram_bank_number
        }
        &&& after.rtc_data_latch_writes == if 0x6000 <= address <= 0x7FFF {
            val
        } else {
            self.rtc_data_latch_writes
        }
        &&& after.ram@ == if 0xA000 <= address && self.ram_reachable(address) {
            self.ram@.update(mbc3_ram_offset(self.ram_bank_number as int, address), val)
        } else {
            self.ram@
        }
    }

    /// A cartridge whose RAM starts from `save`, the contents of a save file,
    /// where there is one, and cleared otherwise.
    pub fn new(save: Option<Vec<u8>>, metadata: Metadata, bytes: Vec<u8>) -> (r: Self)
        requires
            save matches Some(s) ==> s@.len() == metadata@.ram_size.size,
        ensures
            r.wf(),
            r.header() == metadata@,
            r.rom() == bytes@,
            r.ram() == match save {
                Some(s) => s@,
                None => Seq::new(metadata@.ram_size.size as nat, |i: int| 0u8),
            },
            r.rom_bank() == 1,
            r.ram_bank() == 0,
            r.mode() == RamRtcMode::NoMode,
            !r.ram_enabled(),
    {
        let size = metadata.ram_size().size;
        let ram = match save {
            Some(s) => s,
            None => {
                let cleared = vec![0u8; size as usize];
                proof {
                    assert(cleared@ =~= Seq::new(metadata@.ram_size.size as nat, |i: int| 0u8));
                }
                cleared
            },
        };
        Self {
            metadata,
            rom_hi_bank_number: 1,
            ram_bank_number: 0,
            ram_rtc_enabled: false,
            switchable_mode: false,
            ram_rtc_mode: RamRtcMode::NoMode,
            rtc_data_latch_writes: 0xFF,
            data: bytes,
            ram,
        }
    }

    fn ram_reachable_at(&self, address: usize) -> (r: Option<usize>)
        requires
            self.wf(),
            0xA000 <= address <= 0xBFFF,
        ensures
            r is Some <==> self.ram_reachable(address as int),
            r matches Some(i) ==> i == mbc3_ram_offset(self.ram_bank_number as int, address as int),
    {
        let i = 0x2000 * (self.ram_bank_number as usize) + (address - 0xA000);
        if self.ram_rtc_mode == RamRtcMode::Ram && self.ram_rtc_enabled && i < self.ram.len() {
            Some(i)
        } else {
            None
        }
    }

    pub fn get(&self, address: usize) -> (r: u8)
        requires
            self.wf(),
            crate::cartridge::is_cart_address(address as int),
        ensures
            r == self.read(address as int),
    {
        if address <= 0x3FFF {
            byte_at(&self.data, address)
        } else if address <= 0x7FFF {
            byte_at(&self.data, banked_index(self.rom_hi_bank_number, address))
        } else {
            match self.ram_reachable_at(address) {
                Some(i) => self.ram[i],
                None => 0xFF,
            }
        }
    }

    pub fn set(&mut self, address: usize, val: u8)
        requires
            old(self).wf(),
            crate::cartridge::is_cart_address(address as int),
        ensures
            final(self).wf(),
            old(self).written(address as int, val, final(self)),
    {
        if address <= 0x1FFF {
            self.ram_rtc_enabled = val & 0xF == 0xA;
        } else if address <= 0x3FFF {
            self.rom_hi_bank_number = if val == 0 {
                1
            } else {
                val as u16
            };
        } else if address <= 0x5FFF {
            if val <= 0x03 {
                self.ram_rtc_mode = RamRtcMode::Ram;
                self.ram_bank_number = val;
            } else if 0x08 <= val && val <= 0x0C {
                self.ram_rtc_mode = RamRtcMode::Rtc;
            }
        } else if address <= 0x7FFF {
            self.rtc_data_latch_writes = val;
        } else {
            match self.ram_reachable_at(address) {
                Some(i) => self.ram.set(i, val),
                None => {},
            }
        }
    }

    pub fn data(&self) -> (r: &Vec<u8>)
        ensures
            r@ == self.rom(),
    {
        &self.data
    }

    pub fn metadata(&self) -> (r: &Metadata)
        ensures
            r@ == self.header(),
    {
        &self.metadata
    }

    /// The battery-backed RAM, as a save file holds it.
    pub fn save_data(&self) -> (r: &Vec<u8>)
        ensures
            r@ == self.ram(),
    {
        &self.ram
    }

    /// A write never changes the ROM image.
    pub proof fn lemma_written_keeps_rom(&self, address: int, val: u8, after: &Self)
        requires
            self.written(address, val, after),
        ensures
            after.rom() == self.rom(),
    {
    }

    /// A byte written to reachable RAM reads back.
    pub proof fn lemma_ram_read_after_write(&self, address: int, val: u8, after: &Self)
        requires
            self.wf(),
            self.ram_reachable(address),
            0xA000 <= address <= 0xBFFF,
            self.written(address, val, after),
        ensures
            after.read(address) == val,
    {
    }

    /// What a write leaves, seen through the cartridge's observers: the ROM
    /// and header stay, and each register and the RAM change as `written` says.
    pub proof fn lemma_written_observed(&self, address: int, val: u8, after: &Self)
        requires
            self.written(address, val, after),
        ensures
            after.rom() == self.rom(),
            after.header() == self.header(),
            after.ram_enabled() == if address <= 0x1FFF {
                val & 0xF == 0xA
            } else {
                self.ram_enabled()
            },
            after.rom_bank() == if 0x2000 <= address <= 0x3FFF {
                bank_or_one(val as int)
            } else {
                self.rom_bank()
            },
            after.mode() == if 0x4000 <= address <= 0x5FFF && val <= 0x03 {
                RamRtcMode::Ram
            } else if 0x4000 <= address <= 0x5FFF && 0x08 <= val <= 0x0C {
                RamRtcMode::Rtc
            } else {
                self.mode()
            },
            after.ram_bank() == if 0x4000 <= address <= 0x5FFF && val <= 0x03 {
                val as int
            } else {
                self.ram_bank()
            },
            after.ram() == if 0xA000 <= address && self.ram_reachable(address) {
                self.ram().update(mbc3_ram_offset(self.ram_bank(), address), val)
            } else {
                self.ram()
            },
    {
    }
}

} // verus!
