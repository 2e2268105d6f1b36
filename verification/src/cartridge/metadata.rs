use vstd::prelude::*;
use crate::cartridge::cartridge_type::{CartridgeType, cartridge_type_of};
use crate::cartridge::ram_size_type::{RamSize, ram_size_of, is_ram_size_code, is_table_ram_size};
use crate::cartridge::rom_size_type::{RomSize, rom_size_of, is_rom_size_code, is_table_rom_size};
use crate::text::{utf8_string, trim_nul, trim_start_nul, trim_end_nul};

verus! {

pub const TITLE_ADDRESS_MIN: usize = 0x0134;
pub const TITLE_ADDRESS_MAX: usize = 0x0142;
pub const TYPE_ADDRESS: usize = 0x147;
pub const ROM_SIZE_ADDRESS: usize = 0x148;
pub const RAM_SIZE_ADDRESS: usize = 0x149;

/// The bytes of the title field of a ROM image.
pub open spec fn title_bytes(rom: Seq<u8>) -> Seq<u8> {
    rom.subrange(TITLE_ADDRESS_MIN as int, TITLE_ADDRESS_MAX + 1)
}

/// A header that can be read: the image reaches the RAM size byte, the title
/// is UTF-8 and both size codes are known.
pub open spec fn readable_header(rom: Seq<u8>) -> bool {
    &&& rom.len() > RAM_SIZE_ADDRESS
    &&& vstd::utf8::valid_utf8(title_bytes(rom))
    &&& is_rom_size_code(rom[ROM_SIZE_ADDRESS as int])
    &&& is_ram_size_code(rom[RAM_SIZE_ADDRESS as int])
}

/// What the header of a ROM image says.
pub struct MetadataView {
    pub title: Seq<char>,
    pub cartridge_type: CartridgeType,
    pub rom_size: RomSize,
    pub ram_size: RamSize,
}

/// The header of a readable ROM image: the title without NUL padding at
/// either end, the cartridge type and the two sizes.
pub open spec fn header_of(rom: Seq<u8>) -> MetadataView {
    MetadataView {
        title: trim_end_nul(trim_start_nul(vstd::utf8::decode_utf8(title_bytes(rom)))),
        cartridge_type: cartridge_type_of(rom[TYPE_ADDRESS as int]),
        rom_size: rom_size_of(rom[ROM_SIZE_ADDRESS as int]),
        ram_size: ram_size_of(rom[RAM_SIZE_ADDRESS as int]),
    }
}

/// The cartridge header: title, cartridge type, ROM and RAM sizes.
#[derive(Debug)]
pub struct Metadata {
    title: String,
    cartridge_type: CartridgeType,
    rom_size: RomSize,
    ram_size: RamSize,
}

impl View for Metadata {
    type V = MetadataView;

    closed spec fn view(&self) -> MetadataView {
        MetadataView {
            title: self.title@,
            cartridge_type: self.cartridge_type,
            rom_size: self.rom_size,
            ram_size: self.ram_size,
        }
    }
}

impl Metadata {
    /// The sizes are those of the header tables.
    #[verifier::type_invariant]
    pub closed spec fn sizes_from_table(&self) -> bool {
        &&& is_table_ram_size(self.ram_size)
        &&& is_table_rom_size(self.rom_size)
    }

    pub fn title(&self) -> (r: &str)
        ensures
            r@ == self@.title,
    {
        self.title.as_str()
    }

    pub fn ram_size(&self) -> (r: &RamSize)
        ensures
            *r == self@.ram_size,
            is_table_ram_size(*r),
    {
        proof {
            use_type_invariant(self);
        }
        &self.ram_size
    }

    pub fn rom_size(&self) -> (r: &RomSize)
        ensures
            *r == self@.rom_size,
            is_table_rom_size(*r),
    {
        proof {
            use_type_invariant(self);
        }
        &self.rom_size
    }

    pub fn cartridge_type(&self) -> (r: &CartridgeType)
        ensures
            *r == self@.cartridge_type,
    {
        &self.cartridge_type
    }

    /// Reads the header of a ROM image.
    pub fn from_bytes(rom: &Vec<u8>) -> (r: Self)
        requires
            readable_header(rom@),
        ensures
            r@ == header_of(rom@),
    {
        Self::parse(rom).unwrap()
    }

    /// Reads the header of a ROM image, or nothing where it cannot be read.
    pub fn parse(rom: &Vec<u8>) -> (r: Option<Self>)
        ensures
            r is Some <==> readable_header(rom@),
            r matches Some(m) ==> m@ == header_of(rom@),
    {
        if rom.len() <= RAM_SIZE_ADDRESS {
            return None;
        }
        let mut title: Vec<u8> = Vec::new();
        let mut i: usize = TITLE_ADDRESS_MIN;
        while i <= TITLE_ADDRESS_MAX
            invariant
                TITLE_ADDRESS_MIN <= i <= TITLE_ADDRESS_MAX + 1,
                rom.len() > RAM_SIZE_ADDRESS,
                title@ == rom@.subrange(TITLE_ADDRESS_MIN as int, i as int),
            decreases TITLE_ADDRESS_MAX + 1 - i,
        {
            title.push(rom[i]);
            i = i + 1;
        }
        let rom_code = rom[ROM_SIZE_ADDRESS];
        let ram_code = rom[RAM_SIZE_ADDRESS];
        let known_rom = rom_code <= 0x08 || rom_code == 0x52 || rom_code == 0x53 || rom_code
            == 0x54;
        if !known_rom || ram_code > 0x05 {
            return None;
        }
        match utf8_string(title) {
            None => None,
            Some(text) => Some(
                Metadata {
                    title: trim_nul(text.as_str()),
                    cartridge_type: CartridgeType::from(rom[TYPE_ADDRESS]),
                    rom_size: RomSize::from_code(rom_code),
                    ram_size: RamSize::from_code(ram_code),
                },
            ),
        }
    }
}

} // verus!
