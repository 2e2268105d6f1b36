pub mod cartridge_type;
pub mod ram_size_type;
pub mod rom_size_type;
pub mod metadata;
pub mod cartridge_rom_only;
pub mod cartridge_mbc1;
pub mod cartridge_mbc1_ram;
pub mod cartridge_mbc2_battery;
pub mod cartridge_mbc3_ram_battery;
pub mod cartridge_mbc5;

use vstd::prelude::*;
use crate::cartridge::cartridge_type::CartridgeType;
use crate::cartridge::cartridge_mbc1::CartridgeMBC1;
use crate::cartridge::cartridge_mbc1_ram::CartridgeMBC1Ram;
use crate::cartridge::cartridge_mbc2_battery::{CartridgeMBC2Battery, MBC2_RAM_SIZE};
use crate::cartridge::cartridge_mbc3_ram_battery::{CartridgeMBC3RamBattery, RamRtcMode};
use crate::cartridge::cartridge_mbc5::CartridgeMBC5;
use crate::cartridge::cartridge_rom_only::CartridgeRomOnly;
use crate::cartridge::metadata::{Metadata, MetadataView, readable_header, header_of};

verus! {

/// The addresses that the bus hands to a cartridge: ROM and external RAM.
pub open spec fn is_cart_address(address: int) -> bool {
    0 <= address <= 0x7FFF || 0xA000 <= address <= 0xBFFF
}

/// A byte of an image; past its end the bus reads 0xFF.
pub open spec fn byte_or_ff(image: Seq<u8>, i: int) -> u8 {
    if 0 <= i < image.len() {
        image[i]
    } else {
        0xFF
    }
}

pub fn byte_at(image: &Vec<u8>, i: usize) -> (r: u8)
    ensures
        r == byte_or_ff(image@, i as int),
{
    if i < image.len() {
        image[i]
    } else {
        0xFF
    }
}

/// Where a read of the switchable ROM window lands in the image.
pub open spec fn banked_offset(bank: int, address: int) -> int {
    0x4000 * bank + (address - 0x4000)
}

pub fn banked_index(bank: u16, address: usize) -> (r: usize)
    requires
        0x4000 <= address <= 0x7FFF,
    ensures
        r == banked_offset(bank as int, address as int),
{
    0x4000 * (bank as usize) + (address - 0x4000)
}

/// The ROM bank counts of MBC1 cartridges, and the bits of a bank number that
/// each of them decodes.
pub open spec fn is_mbc1_bank_count(banks: u16) -> bool {
    banks == 2 || banks == 4 || banks == 8 || banks == 16 || banks == 32 || banks == 64 || banks
        == 128
}

pub open spec fn mbc1_bank_mask(banks: u16) -> u8 {
    if banks == 2 {
        0b0000_0001
    } else if banks == 4 {
        0b0000_0011
    } else if banks == 8 {
        0b0000_0111
    } else if banks == 16 {
        0b0000_1111
    } else {
        0b0001_1111
    }
}

pub fn rom_number_bit_mask(banks: u16) -> (r: u8)
    requires
        is_mbc1_bank_count(banks),
    ensures
        r == mbc1_bank_mask(banks),
{
    match banks {
        2 => 0b0000_0001,
        4 => 0b0000_0011,
        8 => 0b0000_0111,
        16 => 0b0000_1111,
        _ => 0b0001_1111,
    }
}

/// On an MBC1 ROM of 2 to 32 banks, the bank-number bits that the controller
/// decodes reach every bank and no more: a bank number below the bank count
/// passes unchanged, and whatever is written, the decoded number stays below
/// the bank count.
pub proof fn lemma_mbc1_mask_reaches_every_bank(banks: u16, k: u8, v: u8)
    requires
        is_mbc1_bank_count(banks),
        banks <= 32,
    ensures
        k < banks ==> k & mbc1_bank_mask(banks) == k,
        (v & mbc1_bank_mask(banks)) < banks,
{
    assert({
        &&& (k < 2 ==> k & 1 == k) && (v & 1) < 2
        &&& (k < 4 ==> k & 3 == k) && (v & 3) < 4
        &&& (k < 8 ==> k & 7 == k) && (v & 7) < 8
        &&& (k < 16 ==> k & 15 == k) && (v & 15) < 16
        &&& (k < 32 ==> k & 31 == k) && (v & 31) < 32
    }) by (bit_vector);
}

/// The bank that a bank-select write picks: bank 0 cannot be mapped into the
/// switchable window, so 0 selects bank 1.
pub open spec fn bank_or_one(n: int) -> int {
    if n == 0 {
        1
    } else {
        n
    }
}

/// A cartridge: one of the memory bank controllers that this emulator knows.
pub enum Cartridge {
    RomOnly(CartridgeRomOnly),
    Mbc1(CartridgeMBC1),
    Mbc1Ram(CartridgeMBC1Ram),
    Mbc2Battery(CartridgeMBC2Battery),
    Mbc3RamBattery(CartridgeMBC3RamBattery),
    Mbc5(CartridgeMBC5),
}

impl Cartridge {
    pub open spec fn wf(&self) -> bool {
        match self {
            Cartridge::Mbc1(c) => c.wf(),
            Cartridge::Mbc1Ram(c) => c.wf(),
            Cartridge::Mbc2Battery(c) => c.wf(),
            Cartridge::Mbc3RamBattery(c) => c.wf(),
            _ => true,
        }
    }

    /// The ROM image.
    pub open spec fn rom(&self) -> Seq<u8> {
        match self {
            Cartridge::RomOnly(c) => c.rom(),
            Cartridge::Mbc1(c) => c.rom(),
            Cartridge::Mbc1Ram(c) => c.rom(),
            Cartridge::Mbc2Battery(c) => c.rom(),
            Cartridge::Mbc3RamBattery(c) => c.rom(),
            Cartridge::Mbc5(c) => c.rom(),
        }
    }

    /// Whether a bank-select write can be decoded: for MBC1, a ROM of 2 to 128
    /// banks; the other controllers decode any.
    pub open spec fn banks_decodable(&self) -> bool {
        match self {
            Cartridge::Mbc1(c) => c.banks_decodable(),
            Cartridge::Mbc1Ram(c) => c.banks_decodable(),
            _ => true,
        }
    }

    /// The battery-backed RAM, for the cartridges that have one.
    pub open spec fn save(&self) -> Option<Seq<u8>> {
        match self {
            Cartridge::Mbc1Ram(c) => if c.header().cartridge_type == CartridgeType::RomMbc1RamBattery {
                Some(c.ram())
            } else {
                None
            },
            Cartridge::Mbc2Battery(c) => Some(c.ram()),
            Cartridge::Mbc3RamBattery(c) => Some(c.ram()),
            _ => None,
        }
    }

    /// What a read of `address` gives.
    pub open spec fn read(&self, address: int) -> u8 {
        match self {
            Cartridge::RomOnly(c) => c.read(address),
            Cartridge::Mbc1(c) => c.read(address),
            Cartridge::Mbc1Ram(c) => c.read(address),
            Cartridge::Mbc2Battery(c) => c.read(address),
            Cartridge::Mbc3RamBattery(c) => c.read(address),
            Cartridge::Mbc5(c) => c.read(address),
        }
    }

    /// A write of `val` to `address` turns this cartridge into `after`, a
    /// cartridge of the same kind.
    pub open spec fn written(&self, address: int, val: u8, after: &Self) -> bool {
        match (self, after) {
            (Cartridge::RomOnly(c), Cartridge::RomOnly(d)) => *c == *d,
            (Cartridge::Mbc1(c), Cartridge::Mbc1(d)) => c.written(address, val, d),
            (Cartridge::Mbc1Ram(c), Cartridge::Mbc1Ram(d)) => c.written(address, val, d),
            (Cartridge::Mbc2Battery(c), Cartridge::Mbc2Battery(d)) => c.written(address, val, d),
            (Cartridge::Mbc3RamBattery(c), Cartridge::Mbc3RamBattery(d)) => c.written(
                address,
                val,
                d,
            ),
            (Cartridge::Mbc5(c), Cartridge::Mbc5(d)) => c.written(address, val, d),
            _ => false,
        }
    }

    pub fn get(&self, address: usize) -> (r: u8)
        requires
            self.wf(),
            is_cart_address(address as int),
        ensures
            r == self.read(address as int),
    {
        match self {
            Cartridge::RomOnly(c) => c.get(address),
            Cartridge::Mbc1(c) => c.get(address),
            Cartridge::Mbc1Ram(c) => c.get(address),
            Cartridge::Mbc2Battery(c) => c.get(address),
            Cartridge::Mbc3RamBattery(c) => c.get(address),
            Cartridge::Mbc5(c) => c.get(address),
        }
    }

    pub fn set(&mut self, address: usize, val: u8)
        requires
            old(self).wf(),
            is_cart_address(address as int),
            0x2000 <= address <= 0x3FFF ==> old(self).banks_decodable(),
        ensures
            final(self).wf(),
            final(self).banks_decodable() == old(self).banks_decodable(),
            old(self).written(address as int, val, final(self)),
    {
        match self {
            Cartridge::RomOnly(c) => c.set(address, val),
            Cartridge::Mbc1(c) => c.set(address, val),
            Cartridge::Mbc1Ram(c) => c.set(address, val),
            Cartridge::Mbc2Battery(c) => c.set(address, val),
            Cartridge::Mbc3RamBattery(c) => c.set(address, val),
            Cartridge::Mbc5(c) => c.set(address, val),
        }
    }

    pub fn data(&self) -> (r: &Vec<u8>)
        ensures
            r@ == self.rom(),
    {
        match self {
            Cartridge::RomOnly(c) => c.data(),
            Cartridge::Mbc1(c) => c.data(),
            Cartridge::Mbc1Ram(c) => c.data(),
            Cartridge::Mbc2Battery(c) => c.data(),
            Cartridge::Mbc3RamBattery(c) => c.data(),
            Cartridge::Mbc5(c) => c.data(),
        }
    }

    /// The battery-backed RAM, as a save file holds it, for the cartridges
    /// that have one.
    pub fn save_data(&self) -> (r: Option<&Vec<u8>>)
        ensures
            r is Some <==> self.save() is Some,
            r matches Some(v) ==> v@ == self.save()->0,
    {
        match self {
            Cartridge::Mbc1Ram(c) => if c.is_battery() {
                Some(c.save_data())
            } else {
                None
            },
            Cartridge::Mbc2Battery(c) => Some(c.save_data()),
            Cartridge::Mbc3RamBattery(c) => Some(c.save_data()),
            _ => None,
        }
    }

    /// The battery RAM of a well-formed cartridge is no larger than the
    /// largest RAM size of the header table.
    pub proof fn lemma_save_len(&self)
        requires
            self.wf(),
        ensures
            self.save() matches Some(s) ==> s.len() <= 128192,
    {
        match self {
            Cartridge::Mbc1Ram(c) => c.lemma_ram_len(),
            Cartridge::Mbc2Battery(c) => c.lemma_ram_len(),
            Cartridge::Mbc3RamBattery(c) => c.lemma_ram_len(),
            _ => {},
        }
    }

    /// No write changes the ROM image of a cartridge.
    pub proof fn lemma_written_keeps_rom(&self, address: int, val: u8, after: &Self)
        requires
            self.written(address, val, after),
        ensures
            after.rom() == self.rom(),
    {
        match (self, after) {
            (Cartridge::Mbc1(c), Cartridge::Mbc1(d)) => c.lemma_written_keeps_rom(address, val, d),
            (Cartridge::Mbc1Ram(c), Cartridge::Mbc1Ram(d)) => c.lemma_written_keeps_rom(address, val, d),
            (Cartridge::Mbc2Battery(c), Cartridge::Mbc2Battery(d)) => c.lemma_written_keeps_rom(address, val, d),
            (Cartridge::Mbc3RamBattery(c), Cartridge::Mbc3RamBattery(d)) => c.lemma_written_keeps_rom(address, val, d),
            (Cartridge::Mbc5(c), Cartridge::Mbc5(d)) => c.lemma_written_keeps_rom(address, val, d),
            _ => {},
        }
    }

    /// Whether this cartridge is as the header of `rom` makes it, fresh from
    /// power-on, with its battery RAM taken from `save` where there is one.
    pub open spec fn is_fresh(&self, rom: Seq<u8>, save: Option<Seq<u8>>) -> bool {
        let h = header_of(rom);
        &&& self.wf()
        &&& self.rom() == rom
        &&& match self {
            Cartridge::RomOnly(c) => cartridge_kind(h.cartridge_type) == 0,
            Cartridge::Mbc1(c) => {
                &&& cartridge_kind(h.cartridge_type) == 1
                &&& c.header() == h
                &&& c.rom_bank() == 1
                &&& !c.switchable_mode()
            },
            Cartridge::Mbc1Ram(c) => {
                &&& (cartridge_kind(h.cartridge_type) == 2 || cartridge_kind(h.cartridge_type) == 6)
                &&& c.header() == h
                &&& c.rom_bank() == 1
                &&& !c.ram_enabled()
                &&& c.ram() == fresh_ram(h.ram_size.size as nat, save)
            },
            Cartridge::Mbc2Battery(c) => {
                &&& cartridge_kind(h.cartridge_type) == 3
                &&& c.header() == h
                &&& c.rom_bank() == 1
                &&& !c.ram_enabled()
                &&& c.ram() == fresh_ram(MBC2_RAM_SIZE as nat, save)
            },
            Cartridge::Mbc3RamBattery(c) => {
                &&& cartridge_kind(h.cartridge_type) == 4
                &&& c.header() == h
                &&& c.rom_bank() == 1
                &&& c.ram_bank() == 0
                &&& c.mode() == RamRtcMode::NoMode
                &&& !c.ram_enabled()
                &&& c.ram() == fresh_ram(h.ram_size.size as nat, save)
            },
            Cartridge::Mbc5(c) => {
                &&& cartridge_kind(h.cartridge_type) == 5
                &&& c.rom_bank() == 1
                &&& c.ram_bank() == 0
            },
        }
    }
}

/// The memory bank controller that serves a cartridge type: 0 for none, 1 to
/// 5 for MBC1, MBC1 with RAM, MBC2, MBC3 with RAM and MBC5; -1 for the types
/// that this emulator does not run.
pub open spec fn cartridge_kind(t: CartridgeType) -> int {
    match t {
        CartridgeType::RomOnly => 0,
        CartridgeType::RomMbc1 => 1,
        CartridgeType::RomMbc1Ram => 2,
        CartridgeType::RomMbc1RamBattery => 6,
        CartridgeType::RomMbc2Battery => 3,
        CartridgeType::RomMbc3RamBattery => 4,
        CartridgeType::RomMbc5 => 5,
        CartridgeType::RomMbc5RamBattery => 5,
        _ => -1,
    }
}

/// The RAM of a battery cartridge at power-on: the save where there is one,
/// cleared otherwise.
pub open spec fn fresh_ram(size: nat, save: Option<Seq<u8>>) -> Seq<u8> {
    match save {
        Some(s) => s,
        None => Seq::new(size, |i: int| 0u8),
    }
}

/// The size of the battery-backed RAM of the cartridge that a header
/// describes; 0 where it has none.
pub open spec fn battery_ram_size(h: MetadataView) -> int {
    if cartridge_kind(h.cartridge_type) == 3 {
        MBC2_RAM_SIZE as int
    } else if cartridge_kind(h.cartridge_type) == 4 || cartridge_kind(h.cartridge_type) == 6 {
        h.ram_size.size as int
    } else {
        0
    }
}

/// Whether a cartridge kind keeps its RAM on a battery: MBC1 with RAM and
/// battery, MBC2 and MBC3.
pub open spec fn battery_kind(k: int) -> bool {
    k == 3 || k == 4 || k == 6
}

/// Whether a cartridge kind is one of the MBC1 ones.
pub open spec fn mbc1_kind(k: int) -> bool {
    k == 1 || k == 2 || k == 6
}

/// A ROM image of which a cartridge can be built: its header can be read and
/// names a cartridge type that it knows; and a save that fits the battery RAM
/// of the cartridge.
pub open spec fn buildable(rom: Seq<u8>, save: Option<Seq<u8>>) -> bool {
    &&& readable_header(rom)
    &&& cartridge_kind(header_of(rom).cartridge_type) >= 0
    &&& save matches Some(s) ==> {
        &&& battery_kind(cartridge_kind(header_of(rom).cartridge_type))
        &&& s.len() == battery_ram_size(header_of(rom))
    }
}

/// A ROM image that the console runs: it is `buildable`, and, for MBC1, its
/// ROM size is one whose bank numbers the controller decodes, as the first
/// bank-select write needs.
pub open spec fn loadable(rom: Seq<u8>, save: Option<Seq<u8>>) -> bool {
    &&& buildable(rom, save)
    &&& (mbc1_kind(cartridge_kind(header_of(rom).cartridge_type)) ==> is_mbc1_bank_count(
        header_of(rom).rom_size.bank_size,
    ))
}

/// Whether a ROM image, with the contents of a save file where there is one,
/// can be loaded.
pub fn is_loadable(bytes: &Vec<u8>, save: &Option<Vec<u8>>) -> (r: bool)
    ensures
        r == loadable(bytes@, opt_view(save)),
{
    match Metadata::parse(bytes) {
        None => false,
        Some(metadata) => {
            let kind = kind_of(metadata.cartridge_type());
            if kind < 0 {
                return false;
            }
            let banks = metadata.rom_size().bank_size;
            if (kind == 1 || kind == 2 || kind == 6) && !(banks == 2 || banks == 4 || banks == 8 || banks == 16
                || banks == 32 || banks == 64 || banks == 128) {
                return false;
            }
            match save {
                None => true,
                Some(s) => {
                    if kind == 3 {
                        s.len() == MBC2_RAM_SIZE
                    } else if kind == 4 || kind == 6 {
                        s.len() as u64 == metadata.ram_size().size
                    } else {
                        false
                    }
                },
            }
        },
    }
}

/// The view of an optional byte buffer.
pub open spec fn opt_view(v: &Option<Vec<u8>>) -> Option<Seq<u8>> {
    match v {
        Some(s) => Some(s@),
        None => None,
    }
}

fn kind_of(t: &CartridgeType) -> (r: i8)
    ensures
        r == cartridge_kind(*t),
{
    match t {
        CartridgeType::RomOnly => 0,
        CartridgeType::RomMbc1 => 1,
        CartridgeType::RomMbc1Ram => 2,
        CartridgeType::RomMbc1RamBattery => 6,
        CartridgeType::RomMbc2Battery => 3,
        CartridgeType::RomMbc3RamBattery => 4,
        CartridgeType::RomMbc5 => 5,
        CartridgeType::RomMbc5RamBattery => 5,
        _ => -1,
    }
}

/// The size of the battery-backed RAM of the cartridge that a ROM image
/// describes, for the cartridges that have one.
pub fn battery_ram_len(bytes: &Vec<u8>) -> (r: Option<usize>)
    requires
        loadable(bytes@, None),
    ensures
        r is Some <==> battery_kind(cartridge_kind(header_of(bytes@).cartridge_type)),
        r matches Some(n) ==> n == battery_ram_size(header_of(bytes@)),
{
    let metadata = Metadata::from_bytes(bytes);
    let kind = kind_of(metadata.cartridge_type());
    if kind == 3 {
        Some(MBC2_RAM_SIZE)
    } else if kind == 4 || kind == 6 {
        Some(metadata.ram_size().size as usize)
    } else {
        None
    }
}

/// The cartridge that a ROM image describes, with its battery RAM taken from
/// `save`, the contents of a save file, where there is one.
pub fn new_cartridge_with_save(bytes: Vec<u8>, save: Option<Vec<u8>>) -> (r: Cartridge)
    requires
        buildable(bytes@, opt_view(&save)),
    ensures
        r.is_fresh(bytes@, opt_view(&save)),
        r.banks_decodable() == loadable(bytes@, opt_view(&save)),
{
    let metadata = Metadata::from_bytes(&bytes);
    let kind = kind_of(metadata.cartridge_type());
    if kind == 0 {
        Cartridge::RomOnly(CartridgeRomOnly::new(bytes))
    } else if kind == 1 {
        Cartridge::Mbc1(CartridgeMBC1::new(metadata, bytes))
    } else if kind == 2 || kind == 6 {
        Cartridge::Mbc1Ram(CartridgeMBC1Ram::new_with_save(save, metadata, bytes))
    } else if kind == 3 {
        Cartridge::Mbc2Battery(CartridgeMBC2Battery::new(save, metadata, bytes))
    } else if kind == 4 {
        Cartridge::Mbc3RamBattery(CartridgeMBC3RamBattery::new(save, metadata, bytes))
    } else {
        Cartridge::Mbc5(CartridgeMBC5::new(bytes))
    }
}

/// The cartridge that a ROM image describes, fresh from power-on.
pub fn new_cartridge_from_bytes(bytes: Vec<u8>) -> (r: Cartridge)
    requires
        buildable(bytes@, None),
    ensures
        r.is_fresh(bytes@, None),
        r.banks_decodable() == loadable(bytes@, None),
{
    new_cartridge_with_save(bytes, None)
}

} // verus!
