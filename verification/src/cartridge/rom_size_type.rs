use vstd::prelude::*;

verus! {

/// ROM size: total bytes and number of 16 KiB banks.
#[derive(Debug, Copy, Clone, PartialEq, Eq, Structural)]
pub struct RomSize {
    pub size: u32,
    pub bank_size: u16,
}

/// The ROM size codes of the cartridge header.
pub open spec fn is_rom_size_code(code: u8) -> bool {
    code <= 0x08 || code == 0x52 || code == 0x53 || code == 0x54
}

pub open spec fn rom_size_of(code: u8) -> RomSize {
    if code == 0x00 {
        RomSize { size: 32768, bank_size: 2 }
    } else if code == 0x01 {
        RomSize { size: 65536, bank_size: 4 }
    } else if code == 0x02 {
        RomSize { size: 131072, bank_size: 8 }
    } else if code == 0x03 {
        RomSize { size: 262144, bank_size: 16 }
    } else if code == 0x04 {
        RomSize { size: 524288, bank_size: 32 }
    } else if code == 0x05 {
        RomSize { size: 1048576, bank_size: 64 }
    } else if code == 0x06 {
        RomSize { size: 2097152, bank_size: 128 }
    } else if code == 0x07 {
        RomSize { size: 4194304, bank_size: 256 }
    } else if code == 0x08 {
        RomSize { size: 8388608, bank_size: 512 }
    } else if code == 0x52 {
        RomSize { size: 1153433, bank_size: 72 }
    } else if code == 0x53 {
        RomSize { size: 1258291, bank_size: 80 }
    } else {
        RomSize { size: 1572864, bank_size: 96 }
    }
}

/// One of the sizes of the header table.
pub open spec fn is_table_rom_size(s: RomSize) -> bool {
    ||| s == rom_size_of(0x00)
    ||| s == rom_size_of(0x01)
    ||| s == rom_size_of(0x02)
    ||| s == rom_size_of(0x03)
    ||| s == rom_size_of(0x04)
    ||| s == rom_size_of(0x05)
    ||| s == rom_size_of(0x06)
    ||| s == rom_size_of(0x07)
    ||| s == rom_size_of(0x08)
    ||| s == rom_size_of(0x52)
    ||| s == rom_size_of(0x53)
    ||| s == rom_size_of(0x54)
}

impl RomSize {
    /// Codes 0x00 to 0x08 double the size from 32 KiB; 0x52 to 0x54 are the
    /// 72, 80 and 96 bank sizes (1.1, 1.2 and 1.5 MiB, rounded down).
    /// Codes outside the table stand for no size.
    pub fn from_code(code: u8) -> (r: Self)
        requires
            is_rom_size_code(code),
        ensures
            r == rom_size_of(code),
            is_table_rom_size(r),
    {
        match code {
            0x00 => RomSize { size: 32768, bank_size: 2 },
            0x01 => RomSize { size: 65536, bank_size: 4 },
            0x02 => RomSize { size: 131072, bank_size: 8 },
            0x03 => RomSize { size: 262144, bank_size: 16 },
            0x04 => RomSize { size: 524288, bank_size: 32 },
            0x05 => RomSize { size: 1048576, bank_size: 64 },
            0x06 => RomSize { size: 2097152, bank_size: 128 },
            0x07 => RomSize { size: 4194304, bank_size: 256 },
            0x08 => RomSize { size: 8388608, bank_size: 512 },
            0x52 => RomSize { size: 1153433, bank_size: 72 },
            0x53 => RomSize { size: 1258291, bank_size: 80 },
            _ => RomSize { size: 1572864, bank_size: 96 },
        }
    }
}

} // verus!
