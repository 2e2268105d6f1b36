use jimbot::cpu::condition::Condition;
use jimbot::cpu::hex_u16::HexU16;
use jimbot::cpu::hex_u8::HexU8;
use jimbot::cpu::op::Op;
use jimbot::cpu::op_arg::OpArg;
use jimbot::cpu::trace::unknown_instruction;
use jimbot::apu::frequency::Frequency;
use jimbot::apu::wave_length::WaveLength;
use jimbot::cartridge::new_cartridge_from_bytes;
use jimbot::cpu::fflag::FFlag;
use jimbot::cpu::registers::{Registers, R16, R8};
use jimbot::jimbot::Jimbot;
use jimbot::mmu::interrupt_flag::{InterruptRequest, Interrupts};
use jimbot::mmu::joypad::{JoyPad, Key};
use jimbot::mmu::MMU;

fn rom_only() -> Vec<u8> {
    let mut bytes = vec![0u8; 0x8000];
    for i in 0..bytes.len() {
        bytes[i] = (i % 253) as u8;
    }
    for i in 0x134..=0x14F {
        bytes[i] = 0;
    }
    bytes
}

fn machine(program: &[u8]) -> Jimbot {
    let mut boot_rom = [0u8; 0x100];
    boot_rom[..program.len()].copy_from_slice(program);
    Jimbot::new_with_cartridge_bytes(boot_rom, rom_only())
}

fn run(j: &mut Jimbot, cycles: usize) {
    for _ in 0..cycles {
        j.run();
    }
}

#[test]
fn register_pair_round_trip() {
    let mut r = Registers::default();
    r.set16(R16::BC, 0x1234);
    r.set16(R16::DE, 0xBEEF);
    r.set16(R16::HL, 0x0102);
    assert_eq!(r.get16(R16::BC), 0x1234);
    assert_eq!(r.get8(R8::B), 0x12);
    assert_eq!(r.get8(R8::C), 0x34);
    assert_eq!(r.get16(R16::DE), 0xBEEF);
    assert_eq!(r.get16(R16::HL), 0x0102);
    r.set16(R16::SP, 0xFFFE);
    r.set16(R16::PC, 0x0150);
    assert_eq!(r.get16(R16::SP), 0xFFFE);
    assert_eq!(r.get16(R16::PC), 0x0150);
    assert_eq!(r.get16(R16::BC), 0x1234);
}

#[test]
fn flag_register_low_nibble_stays_clear() {
    let mut r = Registers::default();
    r.set16(R16::AF, 0xFFFF);
    assert_eq!(r.get8(R8::A), 0xFF);
    assert_eq!(r.get8(R8::F), 0xF0);
    assert_eq!(r.get16(R16::AF), 0xFFF0);
    r.set8(R8::F, 0x0F);
    assert_eq!(r.get8(R8::F), 0x00);
}

#[test]
fn flag_round_trip() {
    let mut r = Registers::default();
    r.set_f(FFlag::Z, true);
    assert!(r.get_f(FFlag::Z));
    assert!(!r.get_f(FFlag::C));
    r.set_f(FFlag::C, true);
    r.set_f(FFlag::Z, false);
    assert!(!r.get_f(FFlag::Z));
    assert!(r.get_f(FFlag::C));
    assert_eq!(r.get8(R8::F), 0x10);
}

#[test]
fn interrupt_request_bits() {
    let mut i = Interrupts::from(0u8);
    i.enable_request(InterruptRequest::Timer);
    i.enable_request(InterruptRequest::VBlank);
    assert!(i.is_enable(InterruptRequest::Timer));
    assert!(!i.is_enable(InterruptRequest::Serial));
    assert_eq!(
        i.get_request_by_priority(),
        vec![InterruptRequest::VBlank, InterruptRequest::Timer]
    );
    i.disable_request(InterruptRequest::VBlank);
    assert!(!i.is_enable(InterruptRequest::VBlank));
    assert_eq!(u8::from(i), 0b100);
}

#[test]
fn interrupt_routines() {
    assert_eq!(InterruptRequest::VBlank.routine_location(), 0x40);
    assert_eq!(InterruptRequest::LCDStat.routine_location(), 0x48);
    assert_eq!(InterruptRequest::Timer.routine_location(), 0x50);
    assert_eq!(InterruptRequest::Serial.routine_location(), 0x58);
    assert_eq!(InterruptRequest::Joypad.routine_location(), 0x60);
}

#[test]
fn joypad_press_release_round_trip() {
    let mut pad = JoyPad::default();
    assert_eq!(pad.bytes(), 0xFF);
    pad.write(0x10);
    assert_eq!(pad.bytes(), 0xEF);
    pad.press(Key::A);
    assert_eq!(pad.bytes(), 0xEE);
    pad.press(Key::Up);
    assert_eq!(pad.bytes(), 0xEE);
    pad.write(0x20);
    assert_eq!(pad.bytes(), 0xDB);
    pad.release(Key::Up);
    pad.release(Key::A);
    assert_eq!(pad.bytes(), 0xDF);
    pad.write(0x10);
    assert_eq!(pad.bytes(), 0xEF);
}

#[test]
fn ram_reads_back_what_was_written() {
    let cart = new_cartridge_from_bytes(rom_only());
    let mut mmu = MMU::new([0u8; 0x100], Some(cart));
    for (address, value) in [(0x8000u16, 0x11u8), (0x9FFF, 0x22), (0xC123, 0x33), (0xFE10, 0x44), (0xFF90, 0x55)] {
        mmu.set(address, value);
        assert_eq!(mmu.get(address), value);
    }
    // Echo RAM mirrors work RAM.
    mmu.set(0xC200, 0x66);
    assert_eq!(mmu.get(0xE200), 0x66);
    mmu.set(0xE300, 0x77);
    assert_eq!(mmu.get(0xC300), 0x77);
}

#[test]
fn rom_writes_leave_rom_unchanged() {
    let cart = new_cartridge_from_bytes(rom_only());
    let mut mmu = MMU::new([0u8; 0x100], Some(cart));
    mmu.set(0xFF50, 1);
    let before = mmu.get(0x1234);
    mmu.set(0x1234, before.wrapping_add(1));
    assert_eq!(mmu.get(0x1234), before);
    assert_eq!(before, (0x1234usize % 253) as u8);
}

#[test]
fn adc_uses_carry() {
    // SCF; LD A,0x0F; ADC A,0x00
    let mut j = machine(&[0x37, 0x3E, 0x0F, 0xCE, 0x00]);
    run(&mut j, 12);
    assert_eq!(j.cpu().registers().get8(R8::A), 0x10);
    // H set; Z, N, C clear.
    assert_eq!(j.cpu().registers().get8(R8::F), 0x20);
}

#[test]
fn sbc_borrows_through_zero() {
    // SCF; LD A,0x00; SBC A,0x00
    let mut j = machine(&[0x37, 0x3E, 0x00, 0xDE, 0x00]);
    run(&mut j, 12);
    assert_eq!(j.cpu().registers().get8(R8::A), 0xFF);
    // N, H and C set.
    assert_eq!(j.cpu().registers().get8(R8::F), 0x70);
}

#[test]
fn logic_flags() {
    // LD A,0xF0; AND 0x0F
    let mut j = machine(&[0x3E, 0xF0, 0xE6, 0x0F]);
    run(&mut j, 8);
    assert_eq!(j.cpu().registers().get8(R8::A), 0x00);
    assert_eq!(j.cpu().registers().get8(R8::F), 0xA0);
    // LD A,0xF0; XOR 0xFF
    let mut j = machine(&[0x3E, 0xF0, 0xEE, 0xFF]);
    run(&mut j, 8);
    assert_eq!(j.cpu().registers().get8(R8::A), 0x0F);
    assert_eq!(j.cpu().registers().get8(R8::F), 0x00);
    // LD A,0x00; OR 0x00
    let mut j = machine(&[0x3E, 0x00, 0xF6, 0x00]);
    run(&mut j, 8);
    assert_eq!(j.cpu().registers().get8(R8::F), 0x80);
}

#[test]
fn unused_opcodes_stop_with_message() {
    for op in [0xD3u8, 0xDB, 0xDD, 0xE3, 0xE4, 0xEB, 0xEC, 0xED, 0xF4, 0xFC, 0xFD] {
        let mut j = machine(&[op]);
        run(&mut j, 4);
        let expected = format!("[DCD] Unknown opcode 0x{:02X}", op);
        assert_eq!(j.error_message().as_deref(), Some(expected.as_str()));
    }
}

#[test]
fn used_opcodes_do_not_stop() {
    // NOP; LD B,B; INC A; DEC A; CPL; CCF
    let mut j = machine(&[0x00, 0x40, 0x3C, 0x3D, 0x2F, 0x3F]);
    run(&mut j, 24);
    assert!(j.error_message().is_none());
    assert_eq!(j.cpu().registers().get8(R8::A), 0xFF);
}

#[test]
fn add_then_daa_is_decimal_sum() {
    for (a, b, sum, carry) in [(0x15u8, 0x27u8, 0x42u8, false), (0x99, 0x01, 0x00, true), (0x58, 0x67, 0x25, true), (0x09, 0x09, 0x18, false)] {
        // LD A,a; ADD A,b; DAA
        let mut j = machine(&[0x3E, a, 0xC6, b, 0x27]);
        run(&mut j, 12);
        assert_eq!(j.cpu().registers().get8(R8::A), sum);
        assert_eq!(j.cpu().registers().get_f(FFlag::C), carry);
        assert_eq!(j.cpu().registers().get_f(FFlag::Z), sum == 0);
        assert!(!j.cpu().registers().get_f(FFlag::H));
    }
}

#[test]
fn frequency_timer_period() {
    let mut f = Frequency::default();
    f.set_nrx3(0xFE);
    f.set_nrx4(0x07);
    // Frequency 2046: period (2048 - 2046) * 4 = 8.
    f.restart();
    let mut fired = 0;
    for k in 1..=40 {
        if f.cycle() {
            fired += 1;
            assert_eq!(k % 8, 0);
        }
    }
    assert_eq!(fired, 5);
}

#[test]
fn length_counter_ends_once() {
    let mut w = WaveLength::new(31);
    w.restart();
    w.enable_length();
    let mut ends = vec![];
    for k in 1..=50 {
        if w.clock_length() {
            ends.push(k);
        }
    }
    // Loaded with 64 - 31 = 33.
    assert_eq!(ends, vec![33]);
}

#[test]
fn operand_texts() {
    use_texts();
}

fn use_texts() {
    assert_eq!(OpArg::U8(HexU8(0x3E)).text(), "U8(0x3E)");
    assert_eq!(OpArg::AddrU16(HexU16(0xBEEF)).text(), "AddrU16(0xBEEF)");
    assert_eq!(OpArg::FetchAddrU16(Some(HexU8(1)), None).text(), "FetchAddrU16(Some(0x01), None)");
    assert_eq!(OpArg::SPI8(-5).text(), "SPI8(-5)");
    assert_eq!(OpArg::I8(-128).text(), "I8(-128)");
    assert_eq!(OpArg::I8(127).text(), "I8(127)");
    assert_eq!(OpArg::Reg16(R16::HL).text(), "Reg16(HL)");
    assert_eq!(OpArg::CC(Condition::NZ).text(), "CC(NZ)");
    assert_eq!(OpArg::Non.text(), "Non");
    assert_eq!(Op::SetBit.text(), "Set");
    assert_eq!(Op::Ld.text(), "Ld");
    assert_eq!(
        unknown_instruction((Op::Ld, OpArg::Reg8(R8::A), OpArg::U8(HexU8(0x0A)))),
        "[EXE] Unknown instruction Ld Reg8(A) U8(0x0A)"
    );
}
