use jimbot::cartridge::new_cartridge_from_bytes;
use jimbot::cpu::registers::{R16, R8};
use jimbot::jimbot::Jimbot;
use jimbot::mmu::joypad::Key;
use jimbot::mmu::MMU;
use jimbot::ppu::PPU;

fn rom_only() -> Vec<u8> {
    let mut bytes = vec![0u8; 0x8000];
    for i in 0..bytes.len() {
        bytes[i] = (i % 251) as u8;
    }
    for i in 0x134..=0x14F {
        bytes[i] = 0;
    }
    bytes
}

fn boot(program: &[u8]) -> [u8; 0x100] {
    let mut boot_rom = [0u8; 0x100];
    boot_rom[..program.len()].copy_from_slice(program);
    boot_rom
}

fn machine(program: &[u8]) -> Jimbot {
    Jimbot::new_with_cartridge_bytes(boot(program), rom_only())
}

fn run(j: &mut Jimbot, cycles: usize) {
    for _ in 0..cycles {
        j.run();
    }
}

#[test]
fn loads_and_adds() {
    // LD A,0x12; LD B,0x34; ADD A,B
    let mut j = machine(&[0x3E, 0x12, 0x06, 0x34, 0x80]);
    run(&mut j, 12);
    assert_eq!(j.cpu().registers().get8(R8::A), 0x46);
    assert_eq!(j.cpu().registers().get8(R8::B), 0x34);
    assert!(j.error_message().is_none());
}

#[test]
fn add_sets_carry_and_zero() {
    // LD A,0xF0; LD B,0x10; ADD A,B
    let mut j = machine(&[0x3E, 0xF0, 0x06, 0x10, 0x80]);
    run(&mut j, 12);
    assert_eq!(j.cpu().registers().get8(R8::A), 0x00);
    // Z and C set, N and H clear.
    assert_eq!(j.cpu().registers().get8(R8::F), 0x90);
}

#[test]
fn sub_half_borrow() {
    // LD A,0x10; SUB 0x01
    let mut j = machine(&[0x3E, 0x10, 0xD6, 0x01]);
    run(&mut j, 12);
    assert_eq!(j.cpu().registers().get8(R8::A), 0x0F);
    // N and H set.
    assert_eq!(j.cpu().registers().get8(R8::F), 0x60);
}

#[test]
fn daa_after_bcd_add() {
    // LD A,0x15; ADD A,0x27; DAA
    let mut j = machine(&[0x3E, 0x15, 0xC6, 0x27, 0x27]);
    run(&mut j, 12);
    assert_eq!(j.cpu().registers().get8(R8::A), 0x42);
}

#[test]
fn sixteen_bit_load_and_store() {
    // LD HL,0xC000; LD (HL),0x5A; LD A,(HL)
    let mut j = machine(&[0x21, 0x00, 0xC0, 0x36, 0x5A, 0x7E]);
    run(&mut j, 16);
    assert_eq!(j.cpu().registers().get16(R16::HL), 0xC000);
    assert_eq!(j.mmu().get(0xC000), 0x5A);
    assert_eq!(j.cpu().registers().get8(R8::A), 0x5A);
}

#[test]
fn push_pop_round_trip() {
    // LD SP,0xFFFE; LD BC,0x1234; PUSH BC; POP DE
    let mut j = machine(&[0x31, 0xFE, 0xFF, 0x01, 0x34, 0x12, 0xC5, 0xD1]);
    run(&mut j, 24);
    assert_eq!(j.cpu().registers().get16(R16::DE), 0x1234);
    assert_eq!(j.cpu().registers().get16(R16::SP), 0xFFFE);
    assert_eq!(j.mmu().get(0xFFFD), 0x12);
    assert_eq!(j.mmu().get(0xFFFC), 0x34);
}

#[test]
fn relative_jump_backwards() {
    // JR -2: loops on itself.
    let mut j = machine(&[0x18, 0xFE]);
    run(&mut j, 30);
    let pc = j.cpu().registers().get16(R16::PC);
    assert!(pc <= 2);
}

#[test]
fn cb_prefixed_bit_ops() {
    // LD B,0x00; SET 3,B; BIT 3,B
    let mut j = machine(&[0x06, 0x00, 0xCB, 0xD8, 0xCB, 0x58]);
    run(&mut j, 16);
    assert_eq!(j.cpu().registers().get8(R8::B), 0x08);
    // Z clear, H set.
    assert_eq!(j.cpu().registers().get8(R8::F) & 0xE0, 0x20);
}

#[test]
fn unknown_opcode_stops_with_message() {
    let mut j = machine(&[0xD3]);
    run(&mut j, 4);
    assert_eq!(j.error_message().as_deref(), Some("[DCD] Unknown opcode 0xD3"));
    j.clear_error();
    assert!(j.error_message().is_none());
}

#[test]
fn interrupt_is_served() {
    // LD SP,0xFFFE; LD A,0x10; LDH (0xFF),A (IE = joypad); EI; NOP...
    let mut j = machine(&[0x31, 0xFE, 0xFF, 0x3E, 0x10, 0xE0, 0xFF, 0xFB]);
    run(&mut j, 20);
    assert!(j.cpu().ime());
    j.joypad_press(Key::A);
    run(&mut j, 8);
    let pc = j.cpu().registers().get16(R16::PC);
    assert!((0x60..0x70).contains(&pc));
    assert!(!j.cpu().ime());
    assert_eq!(j.mmu().get(0xFF0F) & 0x10, 0);
    assert_eq!(j.cpu().registers().get16(R16::SP), 0xFFFC);
}

#[test]
fn joypad_press_requests_interrupt() {
    let mut j = machine(&[0x00]);
    j.joypad_press(Key::Start);
    assert_eq!(j.mmu().get(0xFF0F) & 0x10, 0x10);
    j.joypad_release(Key::Start);
}

#[test]
fn mmu_memory_map() {
    let cart = new_cartridge_from_bytes(rom_only());
    let mut m = MMU::new(boot(&[0xAA]), Some(cart));
    assert_eq!(m.get(0x0000), 0xAA);
    m.set(0xFF50, 1);
    assert_eq!(m.get(0x0000), 0);
    assert_eq!(m.get(0x0101), (0x101 % 251) as u8);
    m.set(0xC123, 7);
    assert_eq!(m.get(0xE123), 7);
    m.set(0xE124, 8);
    assert_eq!(m.get(0xC124), 8);
    m.set(0xFF80, 9);
    assert_eq!(m.get(0xFF80), 9);
    m.set(0xFF4B, 3);
    assert_eq!(m.wx(), 7);
    m.set(0xFF41, 0xFF);
    assert_eq!(m.get(0xFF41), 0xFC | (0x84 & 0b11));
    m.set(0xFF44, 9);
    assert_eq!(m.ly(), 0);
    assert_eq!(m.get(0xFF03), 0xFF);
    m.set(0xFF04, 0x55);
    assert_eq!(m.get(0xFF04), 0);
}

#[test]
fn dma_copies_159_bytes() {
    let cart = new_cartridge_from_bytes(rom_only());
    let mut m = MMU::new(boot(&[]), Some(cart));
    for i in 0..0xA0u16 {
        m.set(0xC000 + i, (i as u8) ^ 0x5A);
    }
    m.set(0xFF46, 0xC0);
    for i in 0..0x9Fusize {
        assert_eq!(m.oam()[i], (i as u8) ^ 0x5A);
    }
    assert_eq!(m.oam()[0x9F], 0);
}

#[test]
fn ppu_frame_timing() {
    let cart = new_cartridge_from_bytes(rom_only());
    let mut m = MMU::new(boot(&[]), Some(cart));
    let mut ppu = PPU::default();
    m.set(0xFF40, 0x80);
    for _ in 0..456 * 144 {
        ppu.cycle(&mut m);
    }
    assert_eq!(m.ly(), 143);
    ppu.cycle(&mut m);
    assert_eq!(m.ly(), 144);
    assert_eq!(m.get(0xFF0F) & 1, 1);
    for _ in 0..456 * 10 - 1 {
        ppu.cycle(&mut m);
    }
    assert_eq!(ppu.scanline, 0);
    assert_eq!(ppu.scanline_cycle, 0);
}

#[test]
fn ppu_display_off_resets() {
    let cart = new_cartridge_from_bytes(rom_only());
    let mut m = MMU::new(boot(&[]), Some(cart));
    let mut ppu = PPU::default();
    m.set(0xFF40, 0x80);
    for _ in 0..1000 {
        ppu.cycle(&mut m);
    }
    m.set(0xFF40, 0x00);
    ppu.cycle(&mut m);
    assert_eq!(m.ly(), 0);
    assert_eq!(ppu.scanline, 0);
    assert!(!ppu.enable);
    let frame = ppu.lcd();
    assert!(frame.iter().all(|col| col.iter().all(|&p| p == 0)));
}

#[test]
fn sound_samples_are_taken_and_handed_out() {
    let mut j = machine(&[0x3E, 0x80, 0xE0, 0x26]);
    run(&mut j, 20000);
    let samples = j.get_sound_data();
    assert!(!samples.is_empty());
    assert!(j.get_sound_data().is_empty());
}

#[test]
fn ppu_stat_modes_and_coincidence() {
    let cart = new_cartridge_from_bytes(rom_only());
    let mut m = MMU::new(boot(&[]), Some(cart));
    let mut ppu = PPU::default();
    // LY = LYC interrupt enabled, LYC = 2.
    m.set(0xFF41, 0x40);
    m.set(0xFF45, 2);
    m.set(0xFF40, 0x80);
    // Line 0, cycle 0: turning the display on enters OAM search.
    ppu.cycle(&mut m);
    assert_eq!(m.get(0xFF41) & 0b11, 2);
    for _ in 1..=84 {
        ppu.cycle(&mut m);
    }
    // Cycle 84: pixel transfer.
    assert_eq!(m.get(0xFF41) & 0b11, 3);
    for _ in 85..456 {
        ppu.cycle(&mut m);
    }
    // The line's 160 pixels are out: HBlank.
    assert_eq!(m.get(0xFF41) & 0b11, 0);
    assert_eq!(m.get(0xFF0F) & 0b10, 0);
    // Line 2, cycle 4: LY equals LYC, the coincidence bit is set and STAT
    // requests its interrupt.
    for _ in 0..456 + 5 {
        ppu.cycle(&mut m);
    }
    assert_eq!(m.ly(), 2);
    assert_eq!(m.get(0xFF41) & 0b111, 0b110);
    assert_eq!(m.get(0xFF0F) & 0b10, 0b10);
    // Line 3, cycle 4: the bit is cleared again.
    for _ in 0..456 {
        ppu.cycle(&mut m);
    }
    assert_eq!(m.get(0xFF41) & 0b100, 0);
    // Line 144, cycle 4: VBlank.
    for _ in 0..456 * 141 {
        ppu.cycle(&mut m);
    }
    assert_eq!(m.ly(), 144);
    assert_eq!(m.get(0xFF41) & 0b11, 1);
    assert_eq!(m.get(0xFF0F) & 1, 1);
}

#[test]
fn background_tile_is_drawn_through_palette() {
    let cart = new_cartridge_from_bytes(rom_only());
    let mut m = MMU::new(boot(&[]), Some(cart));
    let mut ppu = PPU::default();
    // Tile 0: every row low byte 0xFF, high byte 0x00, so colour 1 throughout;
    // the tile map is all tile 0.
    for row in 0..8u16 {
        m.set(0x8000 + 2 * row, 0xFF);
        m.set(0x8000 + 2 * row + 1, 0x00);
    }
    // BGP: colour 1 shows as shade 2.
    m.set(0xFF47, 0b1110_1000);
    // Display on, tile data at 0x8000, background on.
    m.set(0xFF40, 0x91);
    for _ in 0..70224 {
        ppu.cycle(&mut m);
    }
    let frame = ppu.lcd();
    assert_eq!(frame[0][0], 2);
    assert_eq!(frame[80][72], 2);
    assert_eq!(frame[159][143], 2);
    assert!(frame.iter().all(|col| col.iter().all(|&p| p == 2)));
}

#[test]
fn ppu_runs_without_cartridge() {
    let mut m = MMU::new(boot(&[]), None);
    let mut ppu = PPU::default();
    m.set(0xFF40, 0x91);
    for _ in 0..70224 {
        ppu.cycle(&mut m);
    }
    assert_eq!(m.ly(), 0);
    assert_eq!(m.get(0xFF0F) & 1, 1);
}
