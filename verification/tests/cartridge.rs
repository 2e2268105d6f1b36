use jimbot::cartridge::cartridge_type::CartridgeType;
use jimbot::cartridge::metadata::Metadata;
use jimbot::cartridge::ram_size_type::RamSize;
use jimbot::cartridge::rom_size_type::RomSize;
use jimbot::cartridge::{is_loadable, new_cartridge_from_bytes, new_cartridge_with_save, Cartridge};

/// A ROM image of `banks` 16 KiB banks whose every byte is its bank number,
/// with a header for `kind`, ROM size code `rom_code` and RAM size code `ram_code`.
fn rom(banks: usize, kind: u8, rom_code: u8, ram_code: u8, title: &[u8]) -> Vec<u8> {
    let mut bytes = vec![0u8; banks * 0x4000];
    for (i, b) in bytes.iter_mut().enumerate() {
        *b = (i / 0x4000) as u8;
    }
    for i in 0x134..=0x142 {
        bytes[i] = 0;
    }
    bytes[0x134..0x134 + title.len()].copy_from_slice(title);
    bytes[0x147] = kind;
    bytes[0x148] = rom_code;
    bytes[0x149] = ram_code;
    bytes
}

#[test]
fn rom_size_table() {
    assert_eq!(RomSize::from_code(0x00).size, 32 * 1024);
    assert_eq!(RomSize::from_code(0x00).bank_size, 2);
    assert_eq!(RomSize::from_code(0x05).bank_size, 64);
    assert_eq!(RomSize::from_code(0x08).size, 8 * 1024 * 1024);
    assert_eq!(RomSize::from_code(0x52).size, 1153433);
    assert_eq!(RomSize::from_code(0x53).bank_size, 80);
    assert_eq!(RomSize::from_code(0x54).size, 1572864);
}

#[test]
fn ram_size_table() {
    assert_eq!(RamSize::from_code(0x00).size, 0);
    assert_eq!(RamSize::from_code(0x02).size, 8 * 1024);
    assert_eq!(RamSize::from_code(0x03).bank_size, 4);
    assert_eq!(RamSize::from_code(0x05).size, 64 * 1024);
}

#[test]
fn cartridge_type_codes() {
    assert_eq!(CartridgeType::from(0x00), CartridgeType::RomOnly);
    assert_eq!(CartridgeType::from(0x13), CartridgeType::RomMbc3RamBattery);
    assert_eq!(CartridgeType::from(0x1E), CartridgeType::RomMbc5RumbleRamBattery);
    assert_eq!(CartridgeType::from(0x04), CartridgeType::Unknown(0x04));
}

#[test]
fn metadata_title_is_trimmed() {
    let bytes = rom(2, 0x00, 0x00, 0x00, b"TETRIS");
    let m = Metadata::parse(&bytes).unwrap();
    assert_eq!(m.title(), "TETRIS");
    assert_eq!(*m.cartridge_type(), CartridgeType::RomOnly);
    assert_eq!(m.rom_size().bank_size, 2);
    assert_eq!(m.ram_size().size, 0);
}

#[test]
fn metadata_refuses_bad_headers() {
    assert!(Metadata::parse(&vec![0u8; 0x100]).is_none());
    let mut bad_title = rom(2, 0x00, 0x00, 0x00, b"X");
    bad_title[0x135] = 0xFF;
    assert!(Metadata::parse(&bad_title).is_none());
    let bad_rom_code = rom(2, 0x00, 0x09, 0x00, b"X");
    assert!(Metadata::parse(&bad_rom_code).is_none());
    let bad_ram_code = rom(2, 0x00, 0x00, 0x06, b"X");
    assert!(Metadata::parse(&bad_ram_code).is_none());
}

#[test]
fn loadable_types() {
    assert!(is_loadable(&rom(2, 0x00, 0x00, 0x00, b"A"), &None));
    assert!(!is_loadable(&rom(2, 0x05, 0x00, 0x00, b"A"), &None));
    assert!(!is_loadable(&rom(2, 0x01, 0x52, 0x00, b"A"), &None));
    assert!(is_loadable(&rom(2, 0x06, 0x00, 0x00, b"A"), &Some(vec![0u8; 512])));
    assert!(!is_loadable(&rom(2, 0x06, 0x00, 0x00, b"A"), &Some(vec![0u8; 511])));
    assert!(!is_loadable(&rom(2, 0x00, 0x00, 0x00, b"A"), &Some(vec![0u8; 512])));
}

#[test]
fn rom_only_reads_and_ignores_writes() {
    let mut c = new_cartridge_from_bytes(rom(2, 0x00, 0x00, 0x00, b"A"));
    assert_eq!(c.get(0x4000), 1);
    c.set(0x2000, 5);
    assert_eq!(c.get(0x4000), 1);
    assert_eq!(c.get(0xA000), 0xFF);
    assert!(c.save_data().is_none());
}

#[test]
fn mbc1_bank_switching() {
    let mut c = new_cartridge_from_bytes(rom(8, 0x01, 0x02, 0x00, b"A"));
    assert!(matches!(c, Cartridge::Mbc1(_)));
    assert_eq!(c.get(0x0000), 0);
    assert_eq!(c.get(0x4000), 1);
    c.set(0x2000, 3);
    assert_eq!(c.get(0x4000), 3);
    c.set(0x2000, 0);
    assert_eq!(c.get(0x4000), 1);
    // Eight banks decode three bits of the bank number.
    c.set(0x2000, 0x0E);
    assert_eq!(c.get(0x7FFF), 6);
    assert_eq!(c.get(0xA000), 0xFF);
}

#[test]
fn mbc1_ram_needs_enabling() {
    let mut c = new_cartridge_from_bytes(rom(4, 0x02, 0x01, 0x02, b"A"));
    c.set(0xA010, 0x42);
    assert_eq!(c.get(0xA010), 0xFF);
    c.set(0x0000, 0x0A);
    c.set(0xA010, 0x42);
    assert_eq!(c.get(0xA010), 0x42);
    c.set(0x0000, 0x00);
    assert_eq!(c.get(0xA010), 0xFF);
}

#[test]
fn mbc2_ram_keeps_low_nibble() {
    let mut c = new_cartridge_from_bytes(rom(4, 0x06, 0x01, 0x00, b"A"));
    c.set(0x0000, 0x0A);
    c.set(0xA001, 0xAB);
    assert_eq!(c.get(0xA001), 0x0B);
    assert_eq!(c.get(0xA201), 0x0B);
    c.set(0x0100, 0x02);
    assert_eq!(c.get(0x4000), 2);
    assert_eq!(c.save_data().unwrap()[1], 0x0B);
}

#[test]
fn mbc2_starts_from_save() {
    let mut save = vec![0u8; 512];
    save[7] = 9;
    let mut c = new_cartridge_with_save(rom(4, 0x06, 0x01, 0x00, b"A"), Some(save));
    c.set(0x0000, 0x0A);
    assert_eq!(c.get(0xA007), 9);
}

#[test]
fn mbc3_ram_banks() {
    let mut c = new_cartridge_from_bytes(rom(4, 0x13, 0x01, 0x03, b"A"));
    c.set(0x0000, 0x0A);
    assert_eq!(c.get(0xA000), 0xFF);
    c.set(0x4000, 0x01);
    c.set(0xA000, 0x77);
    assert_eq!(c.get(0xA000), 0x77);
    c.set(0x4000, 0x00);
    assert_eq!(c.get(0xA000), 0x00);
    assert_eq!(c.save_data().unwrap()[0x2000], 0x77);
    c.set(0x4000, 0x08);
    assert_eq!(c.get(0xA000), 0xFF);
    c.set(0x2000, 0);
    assert_eq!(c.get(0x4000), 1);
    c.set(0x2000, 3);
    assert_eq!(c.get(0x4000), 3);
}

#[test]
fn mbc5_nine_bit_bank() {
    let mut c = new_cartridge_from_bytes(rom(4, 0x19, 0x01, 0x00, b"A"));
    c.set(0x2000, 2);
    assert_eq!(c.get(0x4000), 2);
    c.set(0x3000, 1);
    assert_eq!(c.get(0x4000), 0xFF);
    c.set(0x3000, 0);
    c.set(0x2000, 0);
    assert_eq!(c.get(0x4000), 0);
}

#[test]
fn rom_only_reads_its_image() {
    let bytes = rom(2, 0x00, 0x00, 0x00, b"R");
    let mut c = new_cartridge_from_bytes(bytes.clone());
    for a in [0usize, 0x134, 0x3FFF, 0x4000, 0x7FFF] {
        assert_eq!(c.get(a), bytes[a]);
    }
    c.set(0x2000, 3);
    assert_eq!(c.get(0x4000), bytes[0x4000]);
    assert_eq!(c.get(0xA000), 0xFF);
}

#[test]
fn mbc1_battery_keeps_its_ram() {
    // MBC1+RAM+BATTERY, 64 KiB of ROM, 8 KiB of RAM.
    let bytes = rom(4, 0x03, 0x01, 0x02, b"B");
    let mut save = vec![0u8; 8192];
    save[5] = 0x42;
    assert!(is_loadable(&bytes, &Some(save.clone())));
    assert!(!is_loadable(&bytes, &Some(vec![0u8; 100])));
    let mut c = new_cartridge_with_save(bytes.clone(), Some(save));
    assert_eq!(c.get(0xA005), 0xFF);
    c.set(0x0000, 0x0A);
    assert_eq!(c.get(0xA005), 0x42);
    c.set(0xA006, 0x17);
    assert_eq!(c.save_data().unwrap()[6], 0x17);
    // Without battery there is no save.
    let plain = new_cartridge_from_bytes(rom(4, 0x02, 0x01, 0x02, b"B"));
    assert!(plain.save_data().is_none());
}

#[test]
fn mbc1_with_many_banks_is_built_but_not_run() {
    // ROM size code 0x07: 256 banks, more than MBC1 decodes.
    let mut bytes = rom(2, 0x01, 0x00, 0x00, b"M");
    bytes[0x148] = 0x07;
    assert!(!is_loadable(&bytes, &None));
    let c = new_cartridge_from_bytes(bytes.clone());
    assert_eq!(c.get(0x0100), bytes[0x0100]);
    assert_eq!(c.data(), &bytes);
}
