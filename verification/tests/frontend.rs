use jimbot::cartridge::new_cartridge_from_bytes;
use jimbot::cpu::registers::{R16, R8};
use jimbot::dump::{lcd_dump, memory_dump};
use jimbot::jimbot::{Jimbot, CYCLES_PER_FRAME};
use jimbot::screen::{frame_rgba, lcd_rows};
use jimbot::storage::{accept_save, load_save_text, save_text};

fn rom(banks: usize, kind: u8, rom_code: u8, ram_code: u8) -> Vec<u8> {
    let mut bytes = vec![0u8; banks * 0x4000];
    for i in 0x134..=0x14F {
        bytes[i] = 0;
    }
    bytes[0x134] = b'T';
    bytes[0x147] = kind;
    bytes[0x148] = rom_code;
    bytes[0x149] = ram_code;
    bytes
}

fn picture() -> [[u8; 144]; 160] {
    let mut lcd = [[0u8; 144]; 160];
    for x in 0..160 {
        for y in 0..144 {
            lcd[x][y] = ((x + 2 * y) % 5) as u8;
        }
    }
    lcd
}

#[test]
fn rows_are_line_after_line() {
    let lcd = picture();
    let rows = lcd_rows(&lcd);
    assert_eq!(rows.len(), 160 * 144);
    assert_eq!(rows[0], 0);
    assert_eq!(rows[1], 1);
    assert_eq!(rows[160], 2);
    assert_eq!(rows[3 * 160 + 7], ((7 + 6) % 5) as u8);
}

#[test]
fn frame_colours() {
    let lcd = picture();
    let palette = [0xE0F8D0u32, 0x88C070, 0x346856, 0x081820];
    let image = frame_rgba(&lcd, &palette);
    assert_eq!(image.len(), 160 * 144 * 4);
    // (0, 0) has colour 0.
    assert_eq!(&image[0..4], &[0xE0, 0xF8, 0xD0, 0xFF]);
    // (1, 0) has colour 1.
    assert_eq!(&image[4..8], &[0x88, 0xC0, 0x70, 0xFF]);
    // (0, 1) has colour 2.
    assert_eq!(&image[640..644], &[0x34, 0x68, 0x56, 0xFF]);
    // (3, 0) has colour 3 and (4, 0) colour 4: both take the last shade.
    assert_eq!(&image[12..16], &[0x08, 0x18, 0x20, 0xFF]);
    assert_eq!(&image[16..20], &[0x08, 0x18, 0x20, 0xFF]);
}

#[test]
fn memory_dump_layout() {
    assert_eq!(memory_dump(&[0, 1, 2, 3]), "Length: 4 (0x4) bytes\n0000:   00 01 02 03");
    assert_eq!(memory_dump(&[0xAB, 1, 2, 3, 4]), "Length: 5 (0x5) bytes\n0000:   ab 01 02 03  04");
    assert_eq!(memory_dump(&[]), "Length: 0 (0x0) bytes\n");
    let bytes: Vec<u8> = (0..17).collect();
    assert_eq!(
        memory_dump(&bytes),
        "Length: 17 (0x11) bytes\n0000:   00 01 02 03  04 05 06 07  08 09 0a 0b  0c 0d 0e 0f\n0010:   10"
    );
}

#[test]
fn lcd_dump_layout() {
    let lcd = picture();
    let text = lcd_dump(&lcd);
    let lines: Vec<&str> = text.split('\n').collect();
    assert_eq!(lines.len(), 144);
    assert!(lines[0].starts_with("0000:   00 01 02 03 04 00"));
    assert!(lines[1].starts_with("00a0:   02 03 04 00"));
    assert_eq!(lines[0].len(), 8 + 160 * 3 - 1);
}

#[test]
fn battery_save_round_trip() {
    let bytes = rom(4, 0x06, 0x01, 0x00);
    let cart = new_cartridge_from_bytes(bytes.clone());
    let text = save_text(&cart).unwrap();
    assert_eq!(text, format!("{}=", "A".repeat(683)));
    let loaded = load_save_text(&bytes, &text).unwrap().unwrap();
    assert_eq!(loaded, vec![0u8; 512]);
}

#[test]
fn stored_save_outcomes() {
    let mbc2 = rom(4, 0x06, 0x01, 0x00);
    // Not base64: nothing is taken.
    assert_eq!(load_save_text(&mbc2, "!!"), Ok(None));
    // Three bytes: refused with its size.
    assert_eq!(load_save_text(&mbc2, "AAEC"), Err(3));
    assert_eq!(accept_save(&mbc2, Some(vec![1, 2, 3])), Err(3));
    assert_eq!(accept_save(&mbc2, Some(vec![7; 512])), Ok(Some(vec![7; 512])));
    assert_eq!(accept_save(&mbc2, None), Ok(None));
    // A cartridge without battery takes no save.
    let plain = rom(2, 0x00, 0x00, 0x00);
    assert_eq!(load_save_text(&plain, "AAEC"), Ok(None));
    assert!(save_text(&new_cartridge_from_bytes(plain)).is_none());
    // MBC3 with 8 KiB of RAM.
    let mbc3 = rom(4, 0x13, 0x01, 0x02);
    assert_eq!(accept_save(&mbc3, Some(vec![5; 8192])), Ok(Some(vec![5; 8192])));
    assert_eq!(accept_save(&mbc3, Some(vec![5; 512])), Err(512));
}

#[test]
fn frame_runs_and_presses_keys() {
    // LD SP,0xFFFE; LD A,0x10; LDH (0x00),A (action buttons); JR -2
    let mut boot_rom = [0u8; 0x100];
    let program = [0x31, 0xFE, 0xFF, 0x3E, 0x10, 0xE0, 0x00, 0x18, 0xFE];
    boot_rom[..program.len()].copy_from_slice(&program);
    let mut j = Jimbot::new_with_cartridge_bytes(boot_rom, rom(2, 0x00, 0x00, 0x00));
    // Start and A held.
    j.run_frame(&[false, false, false, false, true, false, true, false]);
    assert!(j.error_message().is_none());
    assert_eq!(CYCLES_PER_FRAME, 17477);
    assert_eq!(j.cpu().registers().get16(R16::SP), 0xFFFE);
    assert_eq!(j.cpu().registers().get8(R8::A), 0x10);
    // Action buttons selected: A (bit 0) and Start (bit 3) read as held.
    assert_eq!(j.mmu().get(0xFF00) & 0x0F, 0b0110);
    assert_eq!(j.mmu().get(0xFF0F) & 0x10, 0x10);
    j.run_frame(&[false; 8]);
    assert_eq!(j.mmu().get(0xFF00) & 0x0F, 0b1111);
}

#[test]
fn run_cycles_matches_single_runs() {
    // LD A,0x12; LD B,0x34; ADD A,B
    let mut boot_rom = [0u8; 0x100];
    boot_rom[..5].copy_from_slice(&[0x3E, 0x12, 0x06, 0x34, 0x80]);
    let mut a = Jimbot::new_with_cartridge_bytes(boot_rom, rom(2, 0x00, 0x00, 0x00));
    let mut b = Jimbot::new_with_cartridge_bytes(boot_rom, rom(2, 0x00, 0x00, 0x00));
    a.run_cycles(7);
    a.run_cycles(5);
    for _ in 0..12 {
        b.run();
    }
    assert_eq!(a.cpu().registers().get8(R8::A), 0x46);
    assert_eq!(a.cpu().registers().get16(R16::PC), b.cpu().registers().get16(R16::PC));
    assert_eq!(a.cpu().registers().get16(R16::AF), b.cpu().registers().get16(R16::AF));
    assert_eq!(a.mmu().ly(), b.mmu().ly());
}
