use vstd::prelude::*;

verus! {

/// The cartridge type byte of the header (0x147).
#[derive(Debug, Copy, Clone, PartialEq, Eq, Structural)]
pub enum CartridgeType {
    RomOnly,
    RomMbc1,
    RomMbc1Ram,
    RomMbc1RamBattery,
    RomMbc2,
    RomMbc2Battery,
    RomRam,
    RomRamBattery,
    RomMmm01,
    RomMmm01Ram,
    RomMmm01RamBattery,
    RomMbc3TimerBattery,
    RomMbc3TimerRamBattery,
    RomMbc3,
    RomMbc3Ram,
    RomMbc3RamBattery,
    RomMbc5,
    RomMbc5Ram,
    RomMbc5RamBattery,
    RomMbc5Rumble,
    RomMbc5RumbleRam,
    RomMbc5RumbleRamBattery,
    Unknown(u8),
}

pub open spec fn cartridge_type_of(code: u8) -> CartridgeType {
    if code == 0x00 {
        CartridgeType::RomOnly
    } else if code == 0x01 {
        CartridgeType::RomMbc1
    } else if code == 0x02 {
        CartridgeType::RomMbc1Ram
    } else if code == 0x03 {
        CartridgeType::RomMbc1RamBattery
    } else if code == 0x05 {
        CartridgeType::RomMbc2
    } else if code == 0x06 {
        CartridgeType::RomMbc2Battery
    } else if code == 0x08 {
        CartridgeType::RomRam
    } else if code == 0x09 {
        CartridgeType::RomRamBattery
    } else if code == 0x0B {
        CartridgeType::RomMmm01
    } else if code == 0x0C {
        CartridgeType::RomMmm01Ram
    } else if code == 0x0D {
        CartridgeType::RomMmm01RamBattery
    } else if code == 0x0F {
        CartridgeType::RomMbc3TimerBattery
    } else if code == 0x10 {
        CartridgeType::RomMbc3TimerRamBattery
    } else if code == 0x11 {
        CartridgeType::RomMbc3
    } else if code == 0x12 {
        CartridgeType::RomMbc3Ram
    } else if code == 0x13 {
        CartridgeType::RomMbc3RamBattery
    } else if code == 0x19 {
        CartridgeType::RomMbc5
    } else if code == 0x1A {
        CartridgeType::RomMbc5Ram
    } else if code == 0x1B {
        CartridgeType::RomMbc5RamBattery
    } else if code == 0x1C {
        CartridgeType::RomMbc5Rumble
    } else if code == 0x1D {
        CartridgeType::RomMbc5RumbleRam
    } else if code == 0x1E {
        CartridgeType::RomMbc5RumbleRamBattery
    } else {
        CartridgeType::Unknown(code)
    }
}

impl From<u8> for CartridgeType {
    fn from(code: u8) -> (r: Self)
        ensures
            r == cartridge_type_of(code),
    {
        match code {
            0x00 => CartridgeType::RomOnly,
            0x01 => CartridgeType::RomMbc1,
            0x02 => CartridgeType::RomMbc1Ram,
            0x03 => CartridgeType::RomMbc1RamBattery,
            0x05 => CartridgeType::RomMbc2,
            0x06 => CartridgeType::RomMbc2Battery,
            0x08 => CartridgeType::RomRam,
            0x09 => CartridgeType::RomRamBattery,
            0x0B => CartridgeType::RomMmm01,
            0x0C => CartridgeType::RomMmm01Ram,
            0x0D => CartridgeType::RomMmm01RamBattery,
            0x0F => CartridgeType::RomMbc3TimerBattery,
            0x10 => CartridgeType::RomMbc3TimerRamBattery,
            0x11 => CartridgeType::RomMbc3,
            0x12 => CartridgeType::RomMbc3Ram,
            0x13 => CartridgeType::RomMbc3RamBattery,
            0x19 => CartridgeType::RomMbc5,
            0x1A => CartridgeType::RomMbc5Ram,
            0x1B => CartridgeType::RomMbc5RamBattery,
            0x1C => CartridgeType::RomMbc5Rumble,
            0x1D => CartridgeType::RomMbc5RumbleRam,
            0x1E => CartridgeType::RomMbc5RumbleRamBattery,
            _ => CartridgeType::Unknown(code),
        }
    }
}

impl vstd::std_specs::convert::FromSpecImpl<u8> for CartridgeType {
    open spec fn obeys_from_spec() -> bool {
        true
    }

    open spec fn from_spec(code: u8) -> Self {
        cartridge_type_of(code)
    }
}

} // verus!
