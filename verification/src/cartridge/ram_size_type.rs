use vstd::prelude::*;

verus! {

/// External RAM size: total bytes and number of 8 KiB banks.
#[derive(Debug, Copy, Clone, PartialEq, Eq, Structural)]
pub struct RamSize {
    pub size: u64,
    pub bank_size: u16,
}

/// The RAM size codes of the cartridge header.
pub open spec fn is_ram_size_code(code: u8) -> bool {
    code <= 0x05
}

pub open spec fn ram_size_of(code: u8) -> RamSize {
    if code == 0x00 {
        RamSize { size: 0, bank_size: 0 }
    } else if code == 0x01 {
        RamSize { size: 2048, bank_size: 1 }
    } else if code == 0x02 {
        RamSize { size: 8192, bank_size: 1 }
    } else if code == 0x03 {
        RamSize { size: 32048, bank_size: 4 }
    } else if code == 0x04 {
        RamSize { size: 128192, bank_size: 16 }
    } else {
        RamSize { size: 65536, bank_size: 8 }
    }
}

/// One of the sizes of the header table.
pub open spec fn is_table_ram_size(s: RamSize) -> bool {
    ||| s == ram_size_of(0x00)
    ||| s == ram_size_of(0x01)
    ||| s == ram_size_of(0x02)
    ||| s == ram_size_of(0x03)
    ||| s == ram_size_of(0x04)
    ||| s == ram_size_of(0x05)
}

impl RamSize {
    /// The size that a header code stands for; codes outside
    /// the table stand for no size.
    pub fn from_code(code: u8) -> (r: Self)
        requires
            is_ram_size_code(code),
        ensures
            r == ram_size_of(code),
            is_table_ram_size(r),
    {
        match code {
            0x00 => RamSize { size: 0, bank_size: 0 },
            0x01 => RamSize { size: 2048, bank_size: 1 },
            0x02 => RamSize { size: 8192, bank_size: 1 },
            0x03 => RamSize { size: 32048, bank_size: 4 },
            0x04 => RamSize { size: 128192, bank_size: 16 },
            _ => RamSize { size: 65536, bank_size: 8 },
        }
    }
}

} // verus!
