use vstd::prelude::*;
use crate::cpu::condition::Condition;
use crate::cpu::hex_u16::HexU16;
use crate::cpu::hex_u8::HexU8;
use crate::cpu::instruction::{Ins, Instruction};
use crate::cpu::op::Op;
use crate::cpu::op_arg::OpArg::{AddrReg16, AddrReg16d, AddrReg16i, AddrRegd16, CC, FetchAddrU16, FetchI8, FetchInAddrU8, FetchSPI8, FetchU16, FetchU8, InAddrReg8, Non, Reg16, Reg8, U16, U8};
use crate::cpu::opcodes::{base_opcode, cb_opcode};
use crate::cpu::registers::R16::{BC, DE, HL, SP};
use crate::cpu::registers::{R16, R8};
use crate::cpu::registers::R8::{A, B, C, D, E, F, H, L, P, PCh, PCl, S};
use crate::cpu::CPU;
use crate::text::{hex_byte_text, prefixed_hex_byte};

verus! {

/// The outcome of decoding: whether the instruction runs in the decoding cycle,
/// and the micro-operations, or the message for an opcode that is not run.
pub type Decoded = (bool, Result<Option<Instruction>, String>);

/// `r` holds an instruction whose chain is `chain` and runs at once exactly when `immediate`.
pub open spec fn decodes_to(r: Decoded, immediate: bool, chain: Seq<Ins>) -> bool {
    &&& r.0 == immediate
    &&& r.1 matches Ok(Some(i)) && i.chain() == chain
}

/// `r` is what decoding gives for an opcode with this table entry: the entry's
/// instruction, or, for `None`, a refusal with the message `prefix` + the byte.
pub open spec fn decoded_as(r: Decoded, entry: Option<(bool, Seq<Ins>)>, prefix: Seq<char>, byte: u8) -> bool {
    match entry {
        Some((immediate, chain)) => decodes_to(r, immediate, chain),
        None => {
            &&& !r.0
            &&& r.1 matches Err(m) && m@ == prefix + hex_byte_text(byte)
        },
    }
}

impl CPU {
    pub(crate) fn decode(byte: u8) -> (r: Decoded)
        ensures
            decoded_as(r, base_opcode(byte), "[DCD] Unknown opcode "@, byte),
    {
        match byte / 16 {
            0 => Self::decode_row_0(byte),
            1 => Self::decode_row_1(byte),
            2 => Self::decode_row_2(byte),
            3 => Self::decode_row_3(byte),
            4 => Self::decode_row_4(byte),
            5 => Self::decode_row_5(byte),
            6 => Self::decode_row_6(byte),
            7 => Self::decode_row_7(byte),
            8 => Self::decode_row_8(byte),
            9 => Self::decode_row_9(byte),
            10 => Self::decode_row_a(byte),
            11 => Self::decode_row_b(byte),
            12 => Self::decode_row_c(byte),
            13 => Self::decode_row_d(byte),
            14 => Self::decode_row_e(byte),
            _ => Self::decode_row_f(byte),
        }
    }

    /// Opcodes 0x00 to 0x0F.
    #[verifier::rlimit(100)]
    fn decode_row_0(byte: u8) -> (r: Decoded)
        requires
            byte / 16 == 0,
        ensures
            decoded_as(r, base_opcode(byte), "[DCD] Unknown opcode "@, byte),
    {
        match byte {
            0x00 => Self::dcd_nop(),
            0x01 => Self::dcd_ld_r16_u16(B, C),
            0x02 => Self::dcd_ld_addrr16_r8(BC, A),
            0x03 => Self::dcd_inc_r16(BC),
            0x04 => Self::dcd_inc_r8(B),
            0x05 => Self::dcd_dec_r8(B),
            0x06 => Self::dcd_ld_r8_u8(B),
            0x07 => Self::dcd_rlca(),
            0x08 => Self::dcd_ld_addru16_r16(SP),
            0x09 => Self::dcd_add_r16_r16(HL, BC),
            0x0A => Self::dcd_ld_r8_addrr16(A, BC),
            0x0B => Self::dcd_dec_r16(BC),
            0x0C => Self::dcd_inc_r8(C),
            0x0D => Self::dcd_dec_r8(C),
            0x0E => Self::dcd_ld_r8_u8(C),
            _ => Self::dcd_rrca(),
        }
    }

    /// Opcodes 0x10 to 0x1F.
    #[verifier::rlimit(100)]
    fn decode_row_1(byte: u8) -> (r: Decoded)
        requires
            byte / 16 == 1,
        ensures
            decoded_as(r, base_opcode(byte), "[DCD] Unknown opcode "@, byte),
    {
        proof {
            reveal_strlit("[DCD] Unknown opcode ");
        }
        match byte {
            0x11 => Self::dcd_ld_r16_u16(D, E),
            0x12 => Self::dcd_ld_addrr16_r8(DE, A),
            0x13 => Self::dcd_inc_r16(DE),
            0x14 => Self::dcd_inc_r8(D),
            0x15 => Self::dcd_dec_r8(D),
            0x16 => Self::dcd_ld_r8_u8(D),
            0x17 => Self::dcd_rla(),
            0x18 => Self::dcd_jr_i8(),
            0x19 => Self::dcd_add_r16_r16(HL, DE),
            0x1A => Self::dcd_ld_r8_addrr16(A, DE),
            0x1B => Self::dcd_dec_r16(DE),
            0x1C => Self::dcd_inc_r8(E),
            0x1D => Self::dcd_dec_r8(E),
            0x1E => Self::dcd_ld_r8_u8(E),
            0x1F => Self::dcd_rra(),
            _ => (false, Err(prefixed_hex_byte("[DCD] Unknown opcode ", byte))),
        }
    }

    /// Opcodes 0x20 to 0x2F.
    #[verifier::rlimit(100)]
    fn decode_row_2(byte: u8) -> (r: Decoded)
        requires
            byte / 16 == 2,
        ensures
            decoded_as(r, base_opcode(byte), "[DCD] Unknown opcode "@, byte),
    {
        match byte {
            0x20 => Self::dcd_jr_c_i8(Condition::NZ),
            0x21 => Self::dcd_ld_r16_u16(H, L),
            0x22 => Self::dcd_ld_addrr16i_r8(HL, A),
            0x23 => Self::dcd_inc_r16(HL),
            0x24 => Self::dcd_inc_r8(H),
            0x25 => Self::dcd_dec_r8(H),
            0x26 => Self::dcd_ld_r8_u8(H),
            0x27 => Self::dcd_daa(),
            0x28 => Self::dcd_jr_c_i8(Condition::Z),
            0x29 => Self::dcd_add_r16_r16(HL, HL),
            0x2A => Self::dcd_ld_r8_addrr16i(A, HL),
            0x2B => Self::dcd_dec_r16(HL),
            0x2C => Self::dcd_inc_r8(L),
            0x2D => Self::dcd_dec_r8(L),
            0x2E => Self::dcd_ld_r8_u8(L),
            _ => Self::dcd_cpl(),
        }
    }

    /// Opcodes 0x30 to 0x3F.
    #[verifier::rlimit(100)]
    fn decode_row_3(byte: u8) -> (r: Decoded)
        requires
            byte / 16 == 3,
        ensures
            decoded_as(r, base_opcode(byte), "[DCD] Unknown opcode "@, byte),
    {
        match byte {
            0x30 => Self::dcd_jr_c_i8(Condition::NC),
            0x31 => Self::dcd_ld_r16_u16(S, P),
            0x32 => Self::dcd_ld_r16d_r8(HL, A),
            0x33 => Self::dcd_inc_r16(SP),
            0x34 => Self::dcd_inc_addrr16(HL),
            0x35 => Self::dcd_dec_addrr16(HL),
            0x36 => Self::dcd_ld_addrr16_u8(HL),
            0x37 => Self::dcd_scf(),
            0x38 => Self::dcd_jr_c_i8(Condition::C),
            0x39 => Self::dcd_add_r16_r16(HL, SP),
            0x3A => Self::dcd_ld_r8_addrr16d(A, HL),
            0x3B => Self::dcd_dec_r16(SP),
            0x3C => Self::dcd_inc_r8(A),
            0x3D => Self::dcd_dec_r8(A),
            0x3E => Self::dcd_ld_r8_u8(A),
            _ => Self::dcd_ccf(),
        }
    }

    /// Opcodes 0x40 to 0x4F.
    #[verifier::rlimit(100)]
    fn decode_row_4(byte: u8) -> (r: Decoded)
        requires
            byte / 16 == 4,
        ensures
            decoded_as(r, base_opcode(byte), "[DCD] Unknown opcode "@, byte),
    {
        match byte {
            0x40 => Self::dcd_ld_r8_r8(B, B),
            0x41 => Self::dcd_ld_r8_r8(B, C),
            0x42 => Self::dcd_ld_r8_r8(B, D),
            0x43 => Self::dcd_ld_r8_r8(B, E),
            0x44 => Self::dcd_ld_r8_r8(B, H),
            0x45 => Self::dcd_ld_r8_r8(B, L),
            0x46 => Self::dcd_ld_r8_addrr16(B, HL),
            0x47 => Self::dcd_ld_r8_r8(B, A),
            0x48 => Self::dcd_ld_r8_r8(C, B),
            0x49 => Self::dcd_ld_r8_r8(C, C),
            0x4A => Self::dcd_ld_r8_r8(C, D),
            0x4B => Self::dcd_ld_r8_r8(C, E),
            0x4C => Self::dcd_ld_r8_r8(C, H),
            0x4D => Self::dcd_ld_r8_r8(C, L),
            0x4E => Self::dcd_ld_r8_addrr16(C, HL),
            _ => Self::dcd_ld_r8_r8(C, A),
        }
    }

    /// Opcodes 0x50 to 0x5F.
    #[verifier::rlimit(100)]
    fn decode_row_5(byte: u8) -> (r: Decoded)
        requires
            byte / 16 == 5,
        ensures
            decoded_as(r, base_opcode(byte), "[DCD] Unknown opcode "@, byte),
    {
        match byte {
            0x50 => Self::dcd_ld_r8_r8(D, B),
            0x51 => Self::dcd_ld_r8_r8(D, C),
            0x52 => Self::dcd_ld_r8_r8(D, D),
            0x53 => Self::dcd_ld_r8_r8(D, E),
            0x54 => Self::dcd_ld_r8_r8(D, H),
            0x55 => Self::dcd_ld_r8_r8(D, L),
            0x56 => Self::dcd_ld_r8_addrr16(D, HL),
            0x57 => Self::dcd_ld_r8_r8(D, A),
            0x58 => Self::dcd_ld_r8_r8(E, B),
            0x59 => Self::dcd_ld_r8_r8(E, C),
            0x5A => Self::dcd_ld_r8_r8(E, D),
            0x5B => Self::dcd_ld_r8_r8(E, E),
            0x5C => Self::dcd_ld_r8_r8(E, H),
            0x5D => Self::dcd_ld_r8_r8(E, L),
            0x5E => Self::dcd_ld_r8_addrr16(E, HL),
            _ => Self::dcd_ld_r8_r8(E, A),
        }
    }

    /// Opcodes 0x60 to 0x6F.
    #[verifier::rlimit(100)]
    fn decode_row_6(byte: u8) -> (r: Decoded)
        requires
            byte / 16 == 6,
        ensures
            decoded_as(r, base_opcode(byte), "[DCD] Unknown opcode "@, byte),
    {
        match byte {
            0x60 => Self::dcd_ld_r8_r8(H, B),
            0x61 => Self::dcd_ld_r8_r8(H, C),
            0x62 => Self::dcd_ld_r8_r8(H, D),
            0x63 => Self::dcd_ld_r8_r8(H, E),
            0x64 => Self::dcd_ld_r8_r8(H, H),
            0x65 => Self::dcd_ld_r8_r8(H, L),
            0x66 => Self::dcd_ld_r8_addrr16(H, HL),
            0x67 => Self::dcd_ld_r8_r8(H, A),
            0x68 => Self::dcd_ld_r8_r8(L, B),
            0x69 => Self::dcd_ld_r8_r8(L, C),
            0x6A => Self::dcd_ld_r8_r8(L, D),
            0x6B => Self::dcd_ld_r8_r8(L, E),
            0x6C => Self::dcd_ld_r8_r8(L, H),
            0x6D => Self::dcd_ld_r8_r8(L, L),
            0x6E => Self::dcd_ld_r8_addrr16(L, HL),
            _ => Self::dcd_ld_r8_r8(L, A),
        }
    }

    /// Opcodes 0x70 to 0x7F.
    #[verifier::rlimit(100)]
    fn decode_row_7(byte: u8) -> (r: Decoded)
        requires
            byte / 16 == 7,
        ensures
            decoded_as(r, base_opcode(byte), "[DCD] Unknown opcode "@, byte),
    {
        match byte {
            0x70 => Self::dcd_ld_addrr16_r8(HL, B),
            0x71 => Self::dcd_ld_addrr16_r8(HL, C),
            0x72 => Self::dcd_ld_addrr16_r8(HL, D),
            0x73 => Self::dcd_ld_addrr16_r8(HL, E),
            0x74 => Self::dcd_ld_addrr16_r8(HL, H),
            0x75 => Self::dcd_ld_addrr16_r8(HL, L),
            0x76 => Self::dcd_halt(),
            0x77 => Self::dcd_ld_addrr16_r8(HL, A),
            0x78 => Self::dcd_ld_r8_r8(A, B),
            0x79 => Self::dcd_ld_r8_r8(A, C),
            0x7A => Self::dcd_ld_r8_r8(A, D),
            0x7B => Self::dcd_ld_r8_r8(A, E),
            0x7C => Self::dcd_ld_r8_r8(A, H),
            0x7D => Self::dcd_ld_r8_r8(A, L),
            0x7E => Self::dcd_ld_r8_addrr16(A, HL),
            _ => Self::dcd_ld_r8_r8(A, A),
        }
    }

    /// Opcodes 0x80 to 0x8F.
    #[verifier::rlimit(100)]
    fn decode_row_8(byte: u8) -> (r: Decoded)
        requires
            byte / 16 == 8,
        ensures
            decoded_as(r, base_opcode(byte), "[DCD] Unknown opcode "@, byte),
    {
        match byte {
            0x80 => Self::dcd_add_r8_r8(A, B),
            0x81 => Self::dcd_add_r8_r8(A, C),
            0x82 => Self::dcd_add_r8_r8(A, D),
            0x83 => Self::dcd_add_r8_r8(A, E),
            0x84 => Self::dcd_add_r8_r8(A, H),
            0x85 => Self::dcd_add_r8_r8(A, L),
            0x86 => Self::dcd_add_r8_addrr16(A, HL),
            0x87 => Self::dcd_add_r8_r8(A, A),
            0x88 => Self::dcd_adc_r8_r8(A, B),
            0x89 => Self::dcd_adc_r8_r8(A, C),
            0x8A => Self::dcd_adc_r8_r8(A, D),
            0x8B => Self::dcd_adc_r8_r8(A, E),
            0x8C => Self::dcd_adc_r8_r8(A, H),
            0x8D => Self::dcd_adc_r8_r8(A, L),
            0x8E => Self::dcd_adc_r8_addrr16(A, HL),
            _ => Self::dcd_adc_r8_r8(A, A),
        }
    }

    /// Opcodes 0x90 to 0x9F.
    #[verifier::rlimit(100)]
    fn decode_row_9(byte: u8) -> (r: Decoded)
        requires
            byte / 16 == 9,
        ensures
            decoded_as(r, base_opcode(byte), "[DCD] Unknown opcode "@, byte),
    {
        match byte {
            0x90 => Self::dcd_sub_r8_r8(A, B),
            0x91 => Self::dcd_sub_r8_r8(A, C),
            0x92 => Self::dcd_sub_r8_r8(A, D),
            0x93 => Self::dcd_sub_r8_r8(A, E),
            0x94 => Self::dcd_sub_r8_r8(A, H),
            0x95 => Self::dcd_sub_r8_r8(A, L),
            0x96 => Self::dcd_sub_r8_addrr16(A, HL),
            0x97 => Self::dcd_sub_r8_r8(A, A),
            0x98 => Self::dcd_sbc_r8_r8(A, B),
            0x99 => Self::dcd_sbc_r8_r8(A, C),
            0x9A => Self::dcd_sbc_r8_r8(A, D),
            0x9B => Self::dcd_sbc_r8_r8(A, E),
            0x9C => Self::dcd_sbc_r8_r8(A, H),
            0x9D => Self::dcd_sbc_r8_r8(A, L),
            0x9E => Self::dcd_sbc_r8_addrr16(A, HL),
            _ => Self::dcd_sbc_r8_r8(A, A),
        }
    }

    /// Opcodes 0xA0 to 0xAF.
    #[verifier::rlimit(100)]
    fn decode_row_a(byte: u8) -> (r: Decoded)
        requires
            byte / 16 == 10,
        ensures
            decoded_as(r, base_opcode(byte), "[DCD] Unknown opcode "@, byte),
    {
        match byte {
            0xA0 => Self::dcd_and_r8_r8(A, B),
            0xA1 => Self::dcd_and_r8_r8(A, C),
            0xA2 => Self::dcd_and_r8_r8(A, D),
            0xA3 => Self::dcd_and_r8_r8(A, E),
            0xA4 => Self::dcd_and_r8_r8(A, H),
            0xA5 => Self::dcd_and_r8_r8(A, L),
            0xA6 => Self::dcd_and_r8_addrr16(A, HL),
            0xA7 => Self::dcd_and_r8_r8(A, A),
            0xA8 => Self::dcd_xor_r8_r8(A, B),
            0xA9 => Self::dcd_xor_r8_r8(A, C),
            0xAA => Self::dcd_xor_r8_r8(A, D),
            0xAB => Self::dcd_xor_r8_r8(A, E),
            0xAC => Self::dcd_xor_r8_r8(A, H),
            0xAD => Self::dcd_xor_r8_r8(A, L),
            0xAE => Self::dcd_xor_r8_addrr16(A, HL),
            _ => Self::dcd_xor_r8_r8(A, A),
        }
    }

    /// Opcodes 0xB0 to 0xBF.
    #[verifier::rlimit(100)]
    fn decode_row_b(byte: u8) -> (r: Decoded)
        requires
            byte / 16 == 11,
        ensures
            decoded_as(r, base_opcode(byte), "[DCD] Unknown opcode "@, byte),
    {
        match byte {
            0xB0 => Self::dcd_or_r8_r8(A, B),
            0xB1 => Self::dcd_or_r8_r8(A, C),
            0xB2 => Self::dcd_or_r8_r8(A, D),
            0xB3 => Self::dcd_or_r8_r8(A, E),
            0xB4 => Self::dcd_or_r8_r8(A, H),
            0xB5 => Self::dcd_or_r8_r8(A, L),
            0xB6 => Self::dcd_or_r8_addrr16(A, HL),
            0xB7 => Self::dcd_or_r8_r8(A, A),
            0xB8 => Self::dcd_cp_r8_r8(A, B),
            0xB9 => Self::dcd_cp_r8_r8(A, C),
            0xBA => Self::dcd_cp_r8_r8(A, D),
            0xBB => Self::dcd_cp_r8_r8(A, E),
            0xBC => Self::dcd_cp_r8_r8(A, H),
            0xBD => Self::dcd_cp_r8_r8(A, L),
            0xBE => Self::dcd_cp_r8_addrr16(A, HL),
            _ => Self::dcd_cp_r8_r8(A, A),
        }
    }

    /// Opcodes 0xC0 to 0xCF.
    #[verifier::rlimit(100)]
    fn decode_row_c(byte: u8) -> (r: Decoded)
        requires
            byte / 16 == 12,
        ensures
            decoded_as(r, base_opcode(byte), "[DCD] Unknown opcode "@, byte),
    {
        match byte {
            0xC0 => Self::dcd_ret_c(Condition::NZ),
            0xC1 => Self::dcd_pop_r16(B, C),
            0xC2 => Self::dcd_jp_c_u16(Condition::NZ),
            0xC3 => Self::dcd_jp_u16(),
            0xC4 => Self::dcd_call_c_u16(Condition::NZ),
            0xC5 => Self::dcd_push_r16(B, C),
            0xC6 => Self::dcd_add_r8_u8(A),
            0xC7 => Self::dcd_rst(0x00),
            0xC8 => Self::dcd_ret_c(Condition::Z),
            0xC9 => Self::dcd_ret(),
            0xCA => Self::dcd_jp_c_u16(Condition::Z),
            0xCB => Self::dcd_decode_cb(),
            0xCC => Self::dcd_call_c_u16(Condition::Z),
            0xCD => Self::dcd_call_u16(),
            0xCE => Self::dcd_adc_r8_u8(A),
            _ => Self::dcd_rst(0x08),
        }
    }

    /// Opcodes 0xD0 to 0xDF.
    #[verifier::rlimit(100)]
    fn decode_row_d(byte: u8) -> (r: Decoded)
        requires
            byte / 16 == 13,
        ensures
            decoded_as(r, base_opcode(byte), "[DCD] Unknown opcode "@, byte),
    {
        proof {
            reveal_strlit("[DCD] Unknown opcode ");
        }
        match byte {
            0xD0 => Self::dcd_ret_c(Condition::NC),
            0xD1 => Self::dcd_pop_r16(D, E),
            0xD2 => Self::dcd_jp_c_u16(Condition::NC),
            0xD4 => Self::dcd_call_c_u16(Condition::NC),
            0xD5 => Self::dcd_push_r16(D, E),
            0xD6 => Self::dcd_sub_r8_u8(A),
            0xD7 => Self::dcd_rst(0x10),
            0xD8 => Self::dcd_ret_c(Condition::C),
            0xD9 => Self::dcd_reti(),
            0xDA => Self::dcd_jp_c_u16(Condition::C),
            0xDC => Self::dcd_call_c_u16(Condition::C),
            0xDE => Self::dcd_sbc_r8_u8(A),
            0xDF => Self::dcd_rst(0x18),
            _ => (false, Err(prefixed_hex_byte("[DCD] Unknown opcode ", byte))),
        }
    }

    /// Opcodes 0xE0 to 0xEF.
    #[verifier::rlimit(100)]
    fn decode_row_e(byte: u8) -> (r: Decoded)
        requires
            byte / 16 == 14,
        ensures
            decoded_as(r, base_opcode(byte), "[DCD] Unknown opcode "@, byte),
    {
        proof {
            reveal_strlit("[DCD] Unknown opcode ");
        }
        match byte {
            0xE0 => Self::dcd_ld_inaddru8_r8(A),
            0xE1 => Self::dcd_pop_r16(H, L),
            0xE2 => Self::dcd_ld_inaddrr8_r8(C, A),
            0xE5 => Self::dcd_push_r16(H, L),
            0xE6 => Self::dcd_and_r8_u8(A),
            0xE7 => Self::dcd_rst(0x20),
            0xE8 => Self::dcd_add_r16_i8(SP),
            0xE9 => Self::dcd_jp_r16(HL),
            0xEA => Self::dcd_ld_addru16_r8(A),
            0xEE => Self::dcd_xor_r8_u8(A),
            0xEF => Self::dcd_rst(0x28),
            _ => (false, Err(prefixed_hex_byte("[DCD] Unknown opcode ", byte))),
        }
    }

    /// Opcodes 0xF0 to 0xFF.
    #[verifier::rlimit(100)]
    fn decode_row_f(byte: u8) -> (r: Decoded)
        requires
            byte / 16 == 15,
        ensures
            decoded_as(r, base_opcode(byte), "[DCD] Unknown opcode "@, byte),
    {
        proof {
            reveal_strlit("[DCD] Unknown opcode ");
        }
        match byte {
            0xF0 => Self::dcd_ld_r8_inaddru8(A),
            0xF1 => Self::dcd_pop_r16(A, F),
            0xF2 => Self::dcd_ld_r8_inaddrr8(A, C),
            0xF3 => Self::dcd_di(),
            0xF5 => Self::dcd_push_r16(A, F),
            0xF6 => Self::dcd_or_r8_u8(A),
            0xF7 => Self::dcd_rst(0x30),
            0xF8 => Self::dcd_ld_r16_spi8(HL),
            0xF9 => Self::dcd_ld_r16_r16(SP, HL),
            0xFA => Self::dcd_ld_r8_addru16(A),
            0xFB => Self::dcd_ei(),
            0xFE => Self::dcd_cp_r8_u8(A),
            0xFF => Self::dcd_rst(0x38),
            _ => (false, Err(prefixed_hex_byte("[DCD] Unknown opcode ", byte))),
        }
    }

    #[verifier::rlimit(100)]
    #[verifier::spinoff_prover]
    pub(crate) fn decode_cb(byte: u8) -> (r: Decoded)
        ensures
            decoded_as(r, Some(cb_opcode(byte)), "[DCD CB] Unknown opcode "@, byte),
    {
        match byte {

            0x30 => Self::dcd_swap_r8(B),
            0x31 => Self::dcd_swap_r8(C),
            0x32 => Self::dcd_swap_r8(D),
            0x33 => Self::dcd_swap_r8(E),
            0x34 => Self::dcd_swap_r8(H),
            0x35 => Self::dcd_swap_r8(L),
            0x36 => Self::dcd_swap_addrr16(HL),
            0x37 => Self::dcd_swap_r8(A),

            0x18 => Self::dcd_rr_r8(B),
            0x19 => Self::dcd_rr_r8(C),
            0x1A => Self::dcd_rr_r8(D),
            0x1B => Self::dcd_rr_r8(E),
            0x1C => Self::dcd_rr_r8(H),
            0x1D => Self::dcd_rr_r8(L),
            0x1E => Self::dcd_rr_addrr16(HL),
            0x1F => Self::dcd_rr_r8(A),

            0x38 => Self::dcd_srl_r8(B),
            0x39 => Self::dcd_srl_r8(C),
            0x3A => Self::dcd_srl_r8(D),
            0x3B => Self::dcd_srl_r8(E),
            0x3C => Self::dcd_srl_r8(H),
            0x3D => Self::dcd_srl_r8(L),
            0x3E => Self::dcd_srl_addrr16(HL),
            0x3F => Self::dcd_srl_r8(A),

            0x00 => Self::dcd_rlc_r8(B),
            0x01 => Self::dcd_rlc_r8(C),
            0x02 => Self::dcd_rlc_r8(D),
            0x03 => Self::dcd_rlc_r8(E),
            0x04 => Self::dcd_rlc_r8(H),
            0x05 => Self::dcd_rlc_r8(L),
            0x06 => Self::dcd_rlc_addrr16(HL),
            0x07 => Self::dcd_rlc_r8(A),

            0x20 => Self::dcd_sla_r8(B),
            0x21 => Self::dcd_sla_r8(C),
            0x22 => Self::dcd_sla_r8(D),
            0x23 => Self::dcd_sla_r8(E),
            0x24 => Self::dcd_sla_r8(H),
            0x25 => Self::dcd_sla_r8(L),
            0x26 => Self::dcd_sla_addrr16(HL),
            0x27 => Self::dcd_sla_r8(A),

            0x28 => Self::dcd_sra_r8(B),
            0x29 => Self::dcd_sra_r8(C),
            0x2A => Self::dcd_sra_r8(D),
            0x2B => Self::dcd_sra_r8(E),
            0x2C => Self::dcd_sra_r8(H),
            0x2D => Self::dcd_sra_r8(L),
            0x2E => Self::dcd_sra_addrr16(HL),
            0x2F => Self::dcd_sra_r8(A),

            0x08 => Self::dcd_rrc_r8(B),
            0x09 => Self::dcd_rrc_r8(C),
            0x0A => Self::dcd_rrc_r8(D),
            0x0B => Self::dcd_rrc_r8(E),
            0x0C => Self::dcd_rrc_r8(H),
            0x0D => Self::dcd_rrc_r8(L),
            0x0E => Self::dcd_rrc_addrr16(HL),
            0x0F => Self::dcd_rrc_r8(A),

            0x10 => Self::dcd_rl_r8(B),
            0x11 => Self::dcd_rl_r8(C),
            0x12 => Self::dcd_rl_r8(D),
            0x13 => Self::dcd_rl_r8(E),
            0x14 => Self::dcd_rl_r8(H),
            0x15 => Self::dcd_rl_r8(L),
            0x16 => Self::dcd_rl_addrr16(HL),
            0x17 => Self::dcd_rl_r8(A),

            0x40 => Self::dcd_bit_u8_r8(0, B),
            0x41 => Self::dcd_bit_u8_r8(0, C),
            0x42 => Self::dcd_bit_u8_r8(0, D),
            0x43 => Self::dcd_bit_u8_r8(0, E),
            0x44 => Self::dcd_bit_u8_r8(0, H),
            0x45 => Self::dcd_bit_u8_r8(0, L),
            0x46 => Self::dcd_bit_u8_addrr16(0, HL),
            0x47 => Self::dcd_bit_u8_r8(0, A),

            0x48 => Self::dcd_bit_u8_r8(1, B),
            0x49 => Self::dcd_bit_u8_r8(1, C),
            0x4A => Self::dcd_bit_u8_r8(1, D),
            0x4B => Self::dcd_bit_u8_r8(1, E),
            0x4C => Self::dcd_bit_u8_r8(1, H),
            0x4D => Self::dcd_bit_u8_r8(1, L),
            0x4E => Self::dcd_bit_u8_addrr16(1, HL),
            0x4F => Self::dcd_bit_u8_r8(1, A),

            0x50 => Self::dcd_bit_u8_r8(2, B),
            0x51 => Self::dcd_bit_u8_r8(2, C),
            0x52 => Self::dcd_bit_u8_r8(2, D),
            0x53 => Self::dcd_bit_u8_r8(2, E),
            0x54 => Self::dcd_bit_u8_r8(2, H),
            0x55 => Self::dcd_bit_u8_r8(2, L),
            0x56 => Self::dcd_bit_u8_addrr16(2, HL),
            0x57 => Self::dcd_bit_u8_r8(2, A),

            0x58 => Self::dcd_bit_u8_r8(3, B),
            0x59 => Self::dcd_bit_u8_r8(3, C),
            0x5A => Self::dcd_bit_u8_r8(3, D),
            0x5B => Self::dcd_bit_u8_r8(3, E),
            0x5C => Self::dcd_bit_u8_r8(3, H),
            0x5D => Self::dcd_bit_u8_r8(3, L),
            0x5E => Self::dcd_bit_u8_addrr16(3, HL),
            0x5F => Self::dcd_bit_u8_r8(3, A),

            0x60 => Self::dcd_bit_u8_r8(4, B),
            0x61 => Self::dcd_bit_u8_r8(4, C),
            0x62 => Self::dcd_bit_u8_r8(4, D),
            0x63 => Self::dcd_bit_u8_r8(4, E),
            0x64 => Self::dcd_bit_u8_r8(4, H),
            0x65 => Self::dcd_bit_u8_r8(4, L),
            0x66 => Self::dcd_bit_u8_addrr16(4, HL),
            0x67 => Self::dcd_bit_u8_r8(4, A),

            0x68 => Self::dcd_bit_u8_r8(5, B),
            0x69 => Self::dcd_bit_u8_r8(5, C),
            0x6A => Self::dcd_bit_u8_r8(5, D),
            0x6B => Self::dcd_bit_u8_r8(5, E),
            0x6C => Self::dcd_bit_u8_r8(5, H),
            0x6D => Self::dcd_bit_u8_r8(5, L),
            0x6E => Self::dcd_bit_u8_addrr16(5, HL),
            0x6F => Self::dcd_bit_u8_r8(5, A),

            0x70 => Self::dcd_bit_u8_r8(6, B),
            0x71 => Self::dcd_bit_u8_r8(6, C),
            0x72 => Self::dcd_bit_u8_r8(6, D),
            0x73 => Self::dcd_bit_u8_r8(6, E),
            0x74 => Self::dcd_bit_u8_r8(6, H),
            0x75 => Self::dcd_bit_u8_r8(6, L),
            0x76 => Self::dcd_bit_u8_addrr16(6, HL),
            0x77 => Self::dcd_bit_u8_r8(6, A),

            0x78 => Self::dcd_bit_u8_r8(7, B),
            0x79 => Self::dcd_bit_u8_r8(7, C),
            0x7A => Self::dcd_bit_u8_r8(7, D),
            0x7B => Self::dcd_bit_u8_r8(7, E),
            0x7C => Self::dcd_bit_u8_r8(7, H),
            0x7D => Self::dcd_bit_u8_r8(7, L),
            0x7E => Self::dcd_bit_u8_addrr16(7, HL),
            0x7F => Self::dcd_bit_u8_r8(7, A),

            0x80 => Self::dcd_res_u8_r8(0, B),
            0x81 => Self::dcd_res_u8_r8(0, C),
            0x82 => Self::dcd_res_u8_r8(0, D),
            0x83 => Self::dcd_res_u8_r8(0, E),
            0x84 => Self::dcd_res_u8_r8(0, H),
            0x85 => Self::dcd_res_u8_r8(0, L),
            0x86 => Self::dcd_res_u8_addrr16(0, HL),
            0x87 => Self::dcd_res_u8_r8(0, A),

            0x88 => Self::dcd_res_u8_r8(1, B),
            0x89 => Self::dcd_res_u8_r8(1, C),
            0x8A => Self::dcd_res_u8_r8(1, D),
            0x8B => Self::dcd_res_u8_r8(1, E),
            0x8C => Self::dcd_res_u8_r8(1, H),
            0x8D => Self::dcd_res_u8_r8(1, L),
            0x8E => Self::dcd_res_u8_addrr16(1, HL),
            0x8F => Self::dcd_res_u8_r8(1, A),

            0x90 => Self::dcd_res_u8_r8(2, B),
            0x91 => Self::dcd_res_u8_r8(2, C),
            0x92 => Self::dcd_res_u8_r8(2, D),
            0x93 => Self::dcd_res_u8_r8(2, E),
            0x94 => Self::dcd_res_u8_r8(2, H),
            0x95 => Self::dcd_res_u8_r8(2, L),
            0x96 => Self::dcd_res_u8_addrr16(2, HL),
            0x97 => Self::dcd_res_u8_r8(2, A),

            0x98 => Self::dcd_res_u8_r8(3, B),
            0x99 => Self::dcd_res_u8_r8(3, C),
            0x9A => Self::dcd_res_u8_r8(3, D),
            0x9B => Self::dcd_res_u8_r8(3, E),
            0x9C => Self::dcd_res_u8_r8(3, H),
            0x9D => Self::dcd_res_u8_r8(3, L),
            0x9E => Self::dcd_res_u8_addrr16(3, HL),
            0x9F => Self::dcd_res_u8_r8(3, A),

            0xA0 => Self::dcd_res_u8_r8(4, B),
            0xA1 => Self::dcd_res_u8_r8(4, C),
            0xA2 => Self::dcd_res_u8_r8(4, D),
            0xA3 => Self::dcd_res_u8_r8(4, E),
            0xA4 => Self::dcd_res_u8_r8(4, H),
            0xA5 => Self::dcd_res_u8_r8(4, L),
            0xA6 => Self::dcd_res_u8_addrr16(4, HL),
            0xA7 => Self::dcd_res_u8_r8(4, A),

            0xA8 => Self::dcd_res_u8_r8(5, B),
            0xA9 => Self::dcd_res_u8_r8(5, C),
            0xAA => Self::dcd_res_u8_r8(5, D),
            0xAB => Self::dcd_res_u8_r8(5, E),
            0xAC => Self::dcd_res_u8_r8(5, H),
            0xAD => Self::dcd_res_u8_r8(5, L),
            0xAE => Self::dcd_res_u8_addrr16(5, HL),
            0xAF => Self::dcd_res_u8_r8(5, A),

            0xB0 => Self::dcd_res_u8_r8(6, B),
            0xB1 => Self::dcd_res_u8_r8(6, C),
            0xB2 => Self::dcd_res_u8_r8(6, D),
            0xB3 => Self::dcd_res_u8_r8(6, E),
            0xB4 => Self::dcd_res_u8_r8(6, H),
            0xB5 => Self::dcd_res_u8_r8(6, L),
            0xB6 => Self::dcd_res_u8_addrr16(6, HL),
            0xB7 => Self::dcd_res_u8_r8(6, A),

            0xB8 => Self::dcd_res_u8_r8(7, B),
            0xB9 => Self::dcd_res_u8_r8(7, C),
            0xBA => Self::dcd_res_u8_r8(7, D),
            0xBB => Self::dcd_res_u8_r8(7, E),
            0xBC => Self::dcd_res_u8_r8(7, H),
            0xBD => Self::dcd_res_u8_r8(7, L),
            0xBE => Self::dcd_res_u8_addrr16(7, HL),
            0xBF => Self::dcd_res_u8_r8(7, A),

            0xC0 => Self::dcd_set_u8_r8(0, B),
            0xC1 => Self::dcd_set_u8_r8(0, C),
            0xC2 => Self::dcd_set_u8_r8(0, D),
            0xC3 => Self::dcd_set_u8_r8(0, E),
            0xC4 => Self::dcd_set_u8_r8(0, H),
            0xC5 => Self::dcd_set_u8_r8(0, L),
            0xC6 => Self::dcd_set_u8_addrr16(0, HL),
            0xC7 => Self::dcd_set_u8_r8(0, A),

            0xC8 => Self::dcd_set_u8_r8(1, B),
            0xC9 => Self::dcd_set_u8_r8(1, C),
            0xCA => Self::dcd_set_u8_r8(1, D),
            0xCB => Self::dcd_set_u8_r8(1, E),
            0xCC => Self::dcd_set_u8_r8(1, H),
            0xCD => Self::dcd_set_u8_r8(1, L),
            0xCE => Self::dcd_set_u8_addrr16(1, HL),
            0xCF => Self::dcd_set_u8_r8(1, A),

            0xD0 => Self::dcd_set_u8_r8(2, B),
            0xD1 => Self::dcd_set_u8_r8(2, C),
            0xD2 => Self::dcd_set_u8_r8(2, D),
            0xD3 => Self::dcd_set_u8_r8(2, E),
            0xD4 => Self::dcd_set_u8_r8(2, H),
            0xD5 => Self::dcd_set_u8_r8(2, L),
            0xD6 => Self::dcd_set_u8_addrr16(2, HL),
            0xD7 => Self::dcd_set_u8_r8(2, A),

            0xD8 => Self::dcd_set_u8_r8(3, B),
            0xD9 => Self::dcd_set_u8_r8(3, C),
            0xDA => Self::dcd_set_u8_r8(3, D),
            0xDB => Self::dcd_set_u8_r8(3, E),
            0xDC => Self::dcd_set_u8_r8(3, H),
            0xDD => Self::dcd_set_u8_r8(3, L),
            0xDE => Self::dcd_set_u8_addrr16(3, HL),
            0xDF => Self::dcd_set_u8_r8(3, A),

            0xE0 => Self::dcd_set_u8_r8(4, B),
            0xE1 => Self::dcd_set_u8_r8(4, C),
            0xE2 => Self::dcd_set_u8_r8(4, D),
            0xE3 => Self::dcd_set_u8_r8(4, E),
            0xE4 => Self::dcd_set_u8_r8(4, H),
            0xE5 => Self::dcd_set_u8_r8(4, L),
            0xE6 => Self::dcd_set_u8_addrr16(4, HL),
            0xE7 => Self::dcd_set_u8_r8(4, A),

            0xE8 => Self::dcd_set_u8_r8(5, B),
            0xE9 => Self::dcd_set_u8_r8(5, C),
            0xEA => Self::dcd_set_u8_r8(5, D),
            0xEB => Self::dcd_set_u8_r8(5, E),
            0xEC => Self::dcd_set_u8_r8(5, H),
            0xED => Self::dcd_set_u8_r8(5, L),
            0xEE => Self::dcd_set_u8_addrr16(5, HL),
            0xEF => Self::dcd_set_u8_r8(5, A),

            0xF0 => Self::dcd_set_u8_r8(6, B),
            0xF1 => Self::dcd_set_u8_r8(6, C),
            0xF2 => Self::dcd_set_u8_r8(6, D),
            0xF3 => Self::dcd_set_u8_r8(6, E),
            0xF4 => Self::dcd_set_u8_r8(6, H),
            0xF5 => Self::dcd_set_u8_r8(6, L),
            0xF6 => Self::dcd_set_u8_addrr16(6, HL),
            0xF7 => Self::dcd_set_u8_r8(6, A),

            0xF8 => Self::dcd_set_u8_r8(7, B),
            0xF9 => Self::dcd_set_u8_r8(7, C),
            0xFA => Self::dcd_set_u8_r8(7, D),
            0xFB => Self::dcd_set_u8_r8(7, E),
            0xFC => Self::dcd_set_u8_r8(7, H),
            0xFD => Self::dcd_set_u8_r8(7, L),
            0xFE => Self::dcd_set_u8_addrr16(7, HL),
            0xFF => Self::dcd_set_u8_r8(7, A),
        }
    }

    fn dcd_ld_r16_spi8(r16: R16) -> (r: Decoded)
        ensures
            decodes_to(r, false, seq![(Op::Ld, Reg16(r16), FetchSPI8)]),
    {
        (false, Ok(Some(
            Instruction::new((Op::Ld, Reg16(r16), FetchSPI8), None)
        )))
    }

    fn dcd_add_r16_i8(r16: R16) -> (r: Decoded)
        ensures
            decodes_to(r, false, seq![(Op::Add, Reg16(r16), FetchI8)]),
    {
        (false, Ok(Some(
            Instruction::new((Op::Add, Reg16(r16), FetchI8), None)
        )))
    }

    fn dcd_ei() -> (r: Decoded)
        ensures
            decodes_to(r, true, seq![(Op::Ei, Non, Non)]),
    {
        (true, Ok(Some(
            Instruction::new((Op::Ei, Non, Non), None)
        )))
    }

    fn dcd_halt() -> (r: Decoded)
        ensures
            decodes_to(r, false, seq![(Op::Halt, Non, Non)]),
    {
        (false, Ok(Some(
            Instruction::new((Op::Halt, Non, Non), None)
        )))
    }

    fn dcd_swap_r8(r8: R8) -> (r: Decoded)
        ensures
            decodes_to(r, true, seq![(Op::Swap, Reg8(r8), Non)]),
    {
        (true, Ok(Some(Instruction::new(
            (Op::Swap, Reg8(r8), Non), None,
        ))))
    }

    fn dcd_swap_addrr16(r16: R16) -> (r: Decoded)
        ensures
            decodes_to(r, false, seq![(Op::Swap, AddrReg16(r16), Non)]),
    {
        (false, Ok(Some(Instruction::new(
            (Op::Swap, AddrReg16(r16), Non), None,
        ))))
    }

    fn dcd_rr_r8(r8: R8) -> (r: Decoded)
        ensures
            decodes_to(r, true, seq![(Op::Rr, Reg8(r8), Non)]),
    {
        (true, Ok(Some(Instruction::new(
            (Op::Rr, Reg8(r8), Non), None,
        ))))
    }

    fn dcd_rr_addrr16(r16: R16) -> (r: Decoded)
        ensures
            decodes_to(r, false, seq![(Op::Rr, AddrReg16(r16), Non)]),
    {
        (false, Ok(Some(Instruction::new(
            (Op::Rr, AddrReg16(r16), Non), None,
        ))))
    }

    fn dcd_nop() -> (r: Decoded)
        ensures
            decodes_to(r, true, seq![(Op::Nop, Non, Non)]),
    {
        (true, Ok(Some(Instruction::new(
            (Op::Nop, Non, Non), None,
        ))))
    }

    fn dcd_di() -> (r: Decoded)
        ensures
            decodes_to(r, true, seq![(Op::Di, Non, Non)]),
    {
        (true, Ok(Some(Instruction::new(
            (Op::Di, Non, Non), None,
        ))))
    }

    fn dcd_cpl() -> (r: Decoded)
        ensures
            decodes_to(r, true, seq![(Op::Cpl, Non, Non)]),
    {
        (true, Ok(Some(Instruction::new(
            (Op::Cpl, Non, Non), None,
        ))))
    }

    fn dcd_daa() -> (r: Decoded)
        ensures
            decodes_to(r, true, seq![(Op::Daa, Non, Non)]),
    {
        (true, Ok(Some(Instruction::new(
            (Op::Daa, Non, Non), None,
        ))))
    }

    fn dcd_dec_r8(r8: R8) -> (r: Decoded)
        ensures
            decodes_to(r, true, seq![(Op::Dec, Reg8(r8), Non)]),
    {
        (true, Ok(Some(Instruction::new(
            (Op::Dec, Reg8(r8), Non), None,
        ))))
    }

    fn dcd_dec_r16(r16: R16) -> (r: Decoded)
        ensures
            decodes_to(r, false, seq![(Op::Dec, Reg16(r16), Non)]),
    {
        (false, Ok(Some(Instruction::new(
            (Op::Dec, Reg16(r16), Non), None,
        ))))
    }

    fn dcd_dec_addrr16(r16: R16) -> (r: Decoded)
        ensures
            decodes_to(r, false, seq![(Op::Dec, AddrReg16(r16), Non)]),
    {
        (false, Ok(Some(
            Instruction::new((Op::Dec, AddrReg16(r16), Non), None)
        )))
    }

    fn dcd_inc_addrr16(r16: R16) -> (r: Decoded)
        ensures
            decodes_to(r, false, seq![(Op::Inc, AddrReg16(r16), Non)]),
    {
        (false, Ok(Some(
            Instruction::new((Op::Inc, AddrReg16(r16), Non), None)
        )))
    }

    fn dcd_scf() -> (r: Decoded)
        ensures
            decodes_to(r, true, seq![(Op::Scf, Non, Non)]),
    {
        (true, Ok(Some(Instruction::new(
            (Op::Scf, Non, Non), None,
        ))))
    }

    fn dcd_rla() -> (r: Decoded)
        ensures
            decodes_to(r, true, seq![(Op::Rla, Non, Non)]),
    {
        (true, Ok(Some(Instruction::new(
            (Op::Rla, Non, Non), None,
        ))))
    }

    fn dcd_rrca() -> (r: Decoded)
        ensures
            decodes_to(r, true, seq![(Op::Rrca, Non, Non)]),
    {
        (true, Ok(Some(Instruction::new(
            (Op::Rrca, Non, Non), None,
        ))))
    }

    fn dcd_rlca() -> (r: Decoded)
        ensures
            decodes_to(r, true, seq![(Op::Rlca, Non, Non)]),
    {
        (true, Ok(Some(Instruction::new(
            (Op::Rlca, Non, Non), None,
        ))))
    }

    fn dcd_rra() -> (r: Decoded)
        ensures
            decodes_to(r, true, seq![(Op::Rra, Non, Non)]),
    {
        (true, Ok(Some(Instruction::new(
            (Op::Rra, Non, Non), None,
        ))))
    }

    fn dcd_ccf() -> (r: Decoded)
        ensures
            decodes_to(r, true, seq![(Op::Ccf, Non, Non)]),
    {
        (true, Ok(Some(Instruction::new(
            (Op::Ccf, Non, Non), None,
        ))))
    }

    fn dcd_rl_addrr16(r16: R16) -> (r: Decoded)
        ensures
            decodes_to(r, false, seq![(Op::Rl, AddrReg16(r16), Non)]),
    {
        (false, Ok(Some(Instruction::new(
            (Op::Rl, AddrReg16(r16), Non), None,
        ))))
    }

    fn dcd_rlc_addr16(r16: R16) -> (r: Decoded)
        ensures
            decodes_to(r, false, seq![(Op::Rlc, AddrReg16(r16), Non)]),
    {
        (false, Ok(Some(Instruction::new(
            (Op::Rlc, AddrReg16(r16), Non), None,
        ))))
    }

    fn dcd_rlc_addrr16(r16: R16) -> (r: Decoded)
        ensures
            decodes_to(r, false, seq![(Op::Rlc, AddrReg16(r16), Non)]),
    {
        (false, Ok(Some(Instruction::new(
            (Op::Rlc, AddrReg16(r16), Non), None,
        ))))
    }

    fn dcd_rlc_r8(r8: R8) -> (r: Decoded)
        ensures
            decodes_to(r, true, seq![(Op::Rlc, Reg8(r8), Non)]),
    {
        (true, Ok(Some(Instruction::new(
            (Op::Rlc, Reg8(r8), Non), None,
        ))))
    }

    fn dcd_sla_addrr16(r16: R16) -> (r: Decoded)
        ensures
            decodes_to(r, false, seq![(Op::Sla, AddrReg16(r16), Non)]),
    {
        (false, Ok(Some(Instruction::new(
            (Op::Sla, AddrReg16(r16), Non), None,
        ))))
    }

    fn dcd_sla_r8(r8: R8) -> (r: Decoded)
        ensures
            decodes_to(r, true, seq![(Op::Sla, Reg8(r8), Non)]),
    {
        (true, Ok(Some(Instruction::new(
            (Op::Sla, Reg8(r8), Non), None,
        ))))
    }

    fn dcd_sra_addrr16(r16: R16) -> (r: Decoded)
        ensures
            decodes_to(r, false, seq![(Op::Sra, AddrReg16(r16), Non)]),
    {
        (false, Ok(Some(Instruction::new(
            (Op::Sra, AddrReg16(r16), Non), None,
        ))))
    }

    fn dcd_sra_r8(r8: R8) -> (r: Decoded)
        ensures
            decodes_to(r, true, seq![(Op::Sra, Reg8(r8), Non)]),
    {
        (true, Ok(Some(Instruction::new(
            (Op::Sra, Reg8(r8), Non), None,
        ))))
    }

    fn dcd_rrc_addrr16(r16: R16) -> (r: Decoded)
        ensures
            decodes_to(r, false, seq![(Op::Rrc, AddrReg16(r16), Non)]),
    {
        (false, Ok(Some(Instruction::new(
            (Op::Rrc, AddrReg16(r16), Non), None,
        ))))
    }

    fn dcd_rrc_r8(r8: R8) -> (r: Decoded)
        ensures
            decodes_to(r, true, seq![(Op::Rrc, Reg8(r8), Non)]),
    {
        (true, Ok(Some(Instruction::new(
            (Op::Rrc, Reg8(r8), Non), None,
        ))))
    }

    fn dcd_srl_addrr16(r16: R16) -> (r: Decoded)
        ensures
            decodes_to(r, false, seq![(Op::Srl, AddrReg16(r16), Non)]),
    {
        (false, Ok(Some(Instruction::new(
            (Op::Srl, AddrReg16(r16), Non), None,
        ))))
    }

    fn dcd_srl_r8(r8: R8) -> (r: Decoded)
        ensures
            decodes_to(r, true, seq![(Op::Srl, Reg8(r8), Non)]),
    {
        (true, Ok(Some(Instruction::new(
            (Op::Srl, Reg8(r8), Non), None,
        ))))
    }

    fn dcd_rl_r8(r8: R8) -> (r: Decoded)
        ensures
            decodes_to(r, true, seq![(Op::Rl, Reg8(r8), Non)]),
    {
        (true, Ok(Some(Instruction::new(
            (Op::Rl, Reg8(r8), Non), None,
        ))))
    }

    fn dcd_pop_r16(r81: R8, r82: R8) -> (r: Decoded)
        ensures
            decodes_to(r, false, seq![(Op::Ld, Reg8(r82), AddrReg16i(SP)), (Op::Ld, Reg8(r81), AddrReg16i(SP))]),
    {
        let i1 = Instruction::new((Op::Ld, Reg8(r81), AddrReg16i(SP)), None);
        let i0 = Instruction::new((Op::Ld, Reg8(r82), AddrReg16i(SP)), Some(Box::new(i1)));
        assert(i0.chain() =~= seq![(Op::Ld, Reg8(r82), AddrReg16i(SP)), (Op::Ld, Reg8(r81), AddrReg16i(SP))]);
        (false, Ok(Some(i0)))
    }

    fn dcd_push_r16(r81: R8, r82: R8) -> (r: Decoded)
        ensures
            decodes_to(r, false, seq![(Op::Internal, Non, Non), (Op::Ld, AddrRegd16(SP), Reg8(r81)), (Op::Ld, AddrRegd16(SP), Reg8(r82))]),
    {
        let i2 = Instruction::new((Op::Ld, AddrRegd16(SP), Reg8(r82)), None);
        let i1 = Instruction::new((Op::Ld, AddrRegd16(SP), Reg8(r81)), Some(Box::new(i2)));
        let i0 = Instruction::new((Op::Internal, Non, Non), Some(Box::new(i1)));
        assert(i0.chain() =~= seq![(Op::Internal, Non, Non), (Op::Ld, AddrRegd16(SP), Reg8(r81)), (Op::Ld, AddrRegd16(SP), Reg8(r82))]);
        (false, Ok(Some(i0)))
    }

    fn dcd_cp_r8_r8(r81: R8, r82: R8) -> (r: Decoded)
        ensures
            decodes_to(r, true, seq![(Op::Cp, Reg8(r81), Reg8(r82))]),
    {
        (true, Ok(Some(Instruction::new(
            (Op::Cp, Reg8(r81), Reg8(r82)), None,
        ))))
    }

    fn dcd_sub_r8_r8(r81: R8, r82: R8) -> (r: Decoded)
        ensures
            decodes_to(r, true, seq![(Op::Sub, Reg8(r81), Reg8(r82))]),
    {
        (true, Ok(Some(Instruction::new(
            (Op::Sub, Reg8(r81), Reg8(r82)), None,
        ))))
    }

    fn dcd_and_r8_r8(r81: R8, r82: R8) -> (r: Decoded)
        ensures
            decodes_to(r, true, seq![(Op::And, Reg8(r81), Reg8(r82))]),
    {
        (true, Ok(Some(Instruction::new(
            (Op::And, Reg8(r81), Reg8(r82)), None,
        ))))
    }

    fn dcd_sbc_r8_r8(r81: R8, r82: R8) -> (r: Decoded)
        ensures
            decodes_to(r, true, seq![(Op::Sbc, Reg8(r81), Reg8(r82))]),
    {
        (true, Ok(Some(Instruction::new(
            (Op::Sbc, Reg8(r81), Reg8(r82)), None,
        ))))
    }

    fn dcd_adc_r8_r8(r81: R8, r82: R8) -> (r: Decoded)
        ensures
            decodes_to(r, true, seq![(Op::Adc, Reg8(r81), Reg8(r82))]),
    {
        (true, Ok(Some(Instruction::new(
            (Op::Adc, Reg8(r81), Reg8(r82)), None,
        ))))
    }

    fn dcd_add_r8_r8(r81: R8, r82: R8) -> (r: Decoded)
        ensures
            decodes_to(r, true, seq![(Op::Add, Reg8(r81), Reg8(r82))]),
    {
        (true, Ok(Some(Instruction::new(
            (Op::Add, Reg8(r81), Reg8(r82)), None,
        ))))
    }

    fn dcd_add_r16_r16(r161: R16, r162: R16) -> (r: Decoded)
        ensures
            decodes_to(r, false, seq![(Op::Add, Reg16(r161), Reg16(r162))]),
    {
        (false, Ok(Some(Instruction::new(
            (Op::Add, Reg16(r161), Reg16(r162)), None,
        ))))
    }

    fn dcd_cp_r8_addrr16(r8: R8, r16: R16) -> (r: Decoded)
        ensures
            decodes_to(r, false, seq![(Op::Cp, Reg8(r8), AddrReg16(r16))]),
    {
        (false, Ok(Some(Instruction::new(
            (Op::Cp, Reg8(r8), AddrReg16(r16)), None,
        ))))
    }

    fn dcd_cp_r8_u8(r8: R8) -> (r: Decoded)
        ensures
            decodes_to(r, false, seq![(Op::Cp, Reg8(r8), FetchU8)]),
    {
        (false, Ok(Some(Instruction::new(
            (Op::Cp, Reg8(r8), FetchU8), None,
        ))))
    }

    fn dcd_call_c_u16(c: Condition) -> (r: Decoded)
        ensures
            decodes_to(r, false, seq![(Op::Call, CC(c), FetchU16(None, None))]),
    {
        (false, Ok(Some(Instruction::new(
            (Op::Call, CC(c), FetchU16(None, None)), None,
        ))))
    }

    fn dcd_call_u16() -> (r: Decoded)
        ensures
            decodes_to(r, false, seq![(Op::Call, FetchU16(None, None), Non)]),
    {
        (false, Ok(Some(Instruction::new(
            (Op::Call, FetchU16(None, None), Non), None,
        ))))
    }

    fn dcd_ret() -> (r: Decoded)
        ensures
            decodes_to(r, false, seq![(Op::Ld, Reg8(PCl), AddrReg16i(SP)), (Op::Ld, Reg8(PCh), AddrReg16i(SP)), (Op::Internal, Non, Non)]),
    {
        let i2 = Instruction::new((Op::Internal, Non, Non), None);
        let i1 = Instruction::new((Op::Ld, Reg8(PCh), AddrReg16i(SP)), Some(Box::new(i2)));
        let i0 = Instruction::new((Op::Ld, Reg8(PCl), AddrReg16i(SP)), Some(Box::new(i1)));
        assert(i0.chain() =~= seq![(Op::Ld, Reg8(PCl), AddrReg16i(SP)), (Op::Ld, Reg8(PCh), AddrReg16i(SP)), (Op::Internal, Non, Non)]);
        (false, Ok(Some(i0)))
    }

    fn dcd_rst(u16: u16) -> (r: Decoded)
        ensures
            decodes_to(r, false, seq![(Op::Rst, U16(HexU16(u16)), Non)]),
    {
        (false, Ok(Some(Instruction::new((Op::Rst, U16(HexU16(u16)), Non, ), None))))
    }

    fn dcd_reti() -> (r: Decoded)
        ensures
            decodes_to(r, false, seq![(Op::Ld, Reg8(PCl), AddrReg16i(SP)), (Op::Ld, Reg8(PCh), AddrReg16i(SP)), (Op::EiImm, Non, Non)]),
    {
        let i2 = Instruction::new((Op::EiImm, Non, Non), None);
        let i1 = Instruction::new((Op::Ld, Reg8(PCh), AddrReg16i(SP)), Some(Box::new(i2)));
        let i0 = Instruction::new((Op::Ld, Reg8(PCl), AddrReg16i(SP)), Some(Box::new(i1)));
        assert(i0.chain() =~= seq![(Op::Ld, Reg8(PCl), AddrReg16i(SP)), (Op::Ld, Reg8(PCh), AddrReg16i(SP)), (Op::EiImm, Non, Non)]);
        (false, Ok(Some(i0)))
    }

    fn dcd_ret_c(c: Condition) -> (r: Decoded)
        ensures
            decodes_to(r, false, seq![(Op::Ret, CC(c), Non)]),
    {
        (false, Ok(Some(Instruction::new(
            (Op::Ret, CC(c), Non), None,
        ))))
    }

    fn dcd_inc_r8(r8: R8) -> (r: Decoded)
        ensures
            decodes_to(r, true, seq![(Op::Inc, Reg8(r8), Non)]),
    {
        (true, Ok(Some(Instruction::new(
            (Op::Inc, Reg8(r8), Non), None,
        ))))
    }

    fn dcd_inc_r16(r16: R16) -> (r: Decoded)
        ensures
            decodes_to(r, false, seq![(Op::Inc, Reg16(r16), Non)]),
    {
        (false, Ok(Some(Instruction::new(
            (Op::Inc, Reg16(r16), Non), None,
        ))))
    }

    fn dcd_jp_u16() -> (r: Decoded)
        ensures
            decodes_to(r, false, seq![(Op::Jp, FetchU16(None, None), Non)]),
    {
        (false, Ok(Some(
            Instruction::new((Op::Jp, FetchU16(None, None), Non), None)
        )))
    }

    fn dcd_jp_c_u16(c: Condition) -> (r: Decoded)
        ensures
            decodes_to(r, false, seq![(Op::Jp, CC(c), FetchU16(None, None))]),
    {
        (false, Ok(Some(
            Instruction::new((Op::Jp, CC(c), FetchU16(None, None)), None)
        )))
    }

    fn dcd_jp_r16(r16: R16) -> (r: Decoded)
        ensures
            decodes_to(r, true, seq![(Op::Jp, Reg16(r16), Non)]),
    {
        (true, Ok(Some(
            Instruction::new((Op::Jp, Reg16(r16), Non), None)
        )))
    }

    fn dcd_jr_i8() -> (r: Decoded)
        ensures
            decodes_to(r, false, seq![(Op::Jr, FetchI8, Non)]),
    {
        (false, Ok(Some(
            Instruction::new((Op::Jr, FetchI8, Non), None)
        )))
    }

    fn dcd_jr_c_i8(c: Condition) -> (r: Decoded)
        ensures
            decodes_to(r, false, seq![(Op::Jr, CC(c), FetchI8)]),
    {
        (false, Ok(Some(
            Instruction::new((Op::Jr, CC(c), FetchI8), None)
        )))
    }

    fn dcd_res_u8_addrr16(u8: u8, r16: R16) -> (r: Decoded)
        ensures
            decodes_to(r, false, seq![(Op::Res, U8(HexU8(u8)), AddrReg16(r16))]),
    {
        (false, Ok(Some(
            Instruction::new((Op::Res, U8(HexU8(u8)), AddrReg16(r16)), None)
        )))
    }

    fn dcd_res_u8_r8(u8: u8, r8: R8) -> (r: Decoded)
        ensures
            decodes_to(r, true, seq![(Op::Res, U8(HexU8(u8)), Reg8(r8))]),
    {
        (true, Ok(Some(
            Instruction::new((Op::Res, U8(HexU8(u8)), Reg8(r8)), None)
        )))
    }

    fn dcd_set_u8_addrr16(u8: u8, r16: R16) -> (r: Decoded)
        ensures
            decodes_to(r, false, seq![(Op::SetBit, U8(HexU8(u8)), AddrReg16(r16))]),
    {
        (false, Ok(Some(
            Instruction::new((Op::SetBit, U8(HexU8(u8)), AddrReg16(r16)), None)
        )))
    }

    fn dcd_set_u8_r8(u8: u8, r8: R8) -> (r: Decoded)
        ensures
            decodes_to(r, true, seq![(Op::SetBit, U8(HexU8(u8)), Reg8(r8))]),
    {
        (true, Ok(Some(
            Instruction::new((Op::SetBit, U8(HexU8(u8)), Reg8(r8)), None)
        )))
    }

    fn dcd_bit_u8_addrr16(u8: u8, r16: R16) -> (r: Decoded)
        ensures
            decodes_to(r, false, seq![(Op::Bit, U8(HexU8(u8)), AddrReg16(r16))]),
    {
        (false, Ok(Some(
            Instruction::new((Op::Bit, U8(HexU8(u8)), AddrReg16(r16)), None)
        )))
    }

    fn dcd_bit_u8_r8(u8: u8, r8: R8) -> (r: Decoded)
        ensures
            decodes_to(r, true, seq![(Op::Bit, U8(HexU8(u8)), Reg8(r8))]),
    {
        (true, Ok(Some(
            Instruction::new((Op::Bit, U8(HexU8(u8)), Reg8(r8)), None)
        )))
    }

    fn dcd_decode_cb() -> (r: Decoded)
        ensures
            decodes_to(r, false, seq![(Op::DcdCB, FetchU8, Non)]),
    {
        (false, Ok(Some(
            Instruction::new((Op::DcdCB, FetchU8, Non), None)
        )))
    }

    fn dcd_ld_r16d_r8(r16: R16, r8: R8) -> (r: Decoded)
        ensures
            decodes_to(r, false, seq![(Op::Ld, AddrReg16d(r16), Reg8(r8))]),
    {
        (false, Ok(Some(
            Instruction::new((Op::Ld, AddrReg16d(r16), Reg8(r8)), None)
        )))
    }

    fn dcd_and_r8_u8(r8: R8) -> (r: Decoded)
        ensures
            decodes_to(r, false, seq![(Op::And, Reg8(r8), FetchU8)]),
    {
        (false, Ok(Some(
            Instruction::new((Op::And, Reg8(r8), FetchU8), None)
        )))
    }

    fn dcd_xor_r8_u8(r8: R8) -> (r: Decoded)
        ensures
            decodes_to(r, false, seq![(Op::Xor, Reg8(r8), FetchU8)]),
    {
        (false, Ok(Some(
            Instruction::new((Op::Xor, Reg8(r8), FetchU8), None)
        )))
    }

    fn dcd_add_r8_u8(r8: R8) -> (r: Decoded)
        ensures
            decodes_to(r, false, seq![(Op::Add, Reg8(r8), FetchU8)]),
    {
        (false, Ok(Some(
            Instruction::new((Op::Add, Reg8(r8), FetchU8), None)
        )))
    }

    fn dcd_adc_r8_u8(r8: R8) -> (r: Decoded)
        ensures
            decodes_to(r, false, seq![(Op::Adc, Reg8(r8), FetchU8)]),
    {
        (false, Ok(Some(
            Instruction::new((Op::Adc, Reg8(r8), FetchU8), None)
        )))
    }

    fn dcd_sub_r8_u8(r8: R8) -> (r: Decoded)
        ensures
            decodes_to(r, false, seq![(Op::Sub, Reg8(r8), FetchU8)]),
    {
        (false, Ok(Some(
            Instruction::new((Op::Sub, Reg8(r8), FetchU8), None)
        )))
    }

    fn dcd_sbc_r8_u8(r8: R8) -> (r: Decoded)
        ensures
            decodes_to(r, false, seq![(Op::Sbc, Reg8(r8), FetchU8)]),
    {
        (false, Ok(Some(
            Instruction::new((Op::Sbc, Reg8(r8), FetchU8), None)
        )))
    }

    fn dcd_or_r8_u8(r8: R8) -> (r: Decoded)
        ensures
            decodes_to(r, false, seq![(Op::Or, Reg8(r8), FetchU8)]),
    {
        (false, Ok(Some(
            Instruction::new((Op::Or, Reg8(r8), FetchU8), None)
        )))
    }

    fn dcd_or_r8_r8(r81: R8, r82: R8) -> (r: Decoded)
        ensures
            decodes_to(r, true, seq![(Op::Or, Reg8(r81), Reg8(r82))]),
    {
        (true, Ok(Some(
            Instruction::new((Op::Or, Reg8(r81), Reg8(r82)), None)
        )))
    }

    fn dcd_xor_r8_r8(r81: R8, r82: R8) -> (r: Decoded)
        ensures
            decodes_to(r, true, seq![(Op::Xor, Reg8(r81), Reg8(r82))]),
    {
        (true, Ok(Some(
            Instruction::new((Op::Xor, Reg8(r81), Reg8(r82)), None)
        )))
    }

    fn dcd_xor_r8_addrr16(r8: R8, r16: R16) -> (r: Decoded)
        ensures
            decodes_to(r, false, seq![(Op::Xor, Reg8(r8), AddrReg16(r16))]),
    {
        (false, Ok(Some(
            Instruction::new((Op::Xor, Reg8(r8), AddrReg16(r16)), None)
        )))
    }

    fn dcd_or_r8_addrr16(r8: R8, r16: R16) -> (r: Decoded)
        ensures
            decodes_to(r, false, seq![(Op::Or, Reg8(r8), AddrReg16(r16))]),
    {
        (false, Ok(Some(
            Instruction::new((Op::Or, Reg8(r8), AddrReg16(r16)), None)
        )))
    }

    fn dcd_add_r8_addrr16(r8: R8, r16: R16) -> (r: Decoded)
        ensures
            decodes_to(r, false, seq![(Op::Add, Reg8(r8), AddrReg16(r16))]),
    {
        (false, Ok(Some(
            Instruction::new((Op::Add, Reg8(r8), AddrReg16(r16)), None)
        )))
    }

    fn dcd_adc_r8_addrr16(r8: R8, r16: R16) -> (r: Decoded)
        ensures
            decodes_to(r, false, seq![(Op::Adc, Reg8(r8), AddrReg16(r16))]),
    {
        (false, Ok(Some(
            Instruction::new((Op::Adc, Reg8(r8), AddrReg16(r16)), None)
        )))
    }

    fn dcd_sbc_r8_addrr16(r8: R8, r16: R16) -> (r: Decoded)
        ensures
            decodes_to(r, false, seq![(Op::Sbc, Reg8(r8), AddrReg16(r16))]),
    {
        (false, Ok(Some(
            Instruction::new((Op::Sbc, Reg8(r8), AddrReg16(r16)), None)
        )))
    }

    fn dcd_and_r8_addrr16(r8: R8, r16: R16) -> (r: Decoded)
        ensures
            decodes_to(r, false, seq![(Op::And, Reg8(r8), AddrReg16(r16))]),
    {
        (false, Ok(Some(
            Instruction::new((Op::And, Reg8(r8), AddrReg16(r16)), None)
        )))
    }

    fn dcd_sub_r8_addrr16(r8: R8, r16: R16) -> (r: Decoded)
        ensures
            decodes_to(r, false, seq![(Op::Sub, Reg8(r8), AddrReg16(r16))]),
    {
        (false, Ok(Some(
            Instruction::new((Op::Sub, Reg8(r8), AddrReg16(r16)), None)
        )))
    }

    fn dcd_ld_addrr16_r8(r16: R16, r8: R8) -> (r: Decoded)
        ensures
            decodes_to(r, false, seq![(Op::Ld, AddrReg16(r16), Reg8(r8))]),
    {
        (false, Ok(Some(Instruction::new(
            (Op::Ld, AddrReg16(r16), Reg8(r8)), None,
        ))))
    }

    fn dcd_ld_addrr16i_r8(r16: R16, r8: R8) -> (r: Decoded)
        ensures
            decodes_to(r, false, seq![(Op::Ld, AddrReg16i(r16), Reg8(r8))]),
    {
        (false, Ok(Some(Instruction::new(
            (Op::Ld, AddrReg16i(r16), Reg8(r8)), None,
        ))))
    }

    fn dcd_ld_r8_addrr16i(r8: R8, r16: R16) -> (r: Decoded)
        ensures
            decodes_to(r, false, seq![(Op::Ld, Reg8(r8), AddrReg16i(r16))]),
    {
        (false, Ok(Some(Instruction::new(
            (Op::Ld, Reg8(r8), AddrReg16i(r16)), None,
        ))))
    }

    fn dcd_ld_r8_addrr16d(r8: R8, r16: R16) -> (r: Decoded)
        ensures
            decodes_to(r, false, seq![(Op::Ld, Reg8(r8), AddrReg16d(r16))]),
    {
        (false, Ok(Some(Instruction::new(
            (Op::Ld, Reg8(r8), AddrReg16d(r16)), None,
        ))))
    }

    fn dcd_ld_r8_addru16(r8: R8) -> (r: Decoded)
        ensures
            decodes_to(r, false, seq![(Op::Ld, Reg8(r8), FetchAddrU16(None, None))]),
    {
        (false, Ok(Some(Instruction::new(
            (Op::Ld, Reg8(r8), FetchAddrU16(None, None)), None,
        ))))
    }

    fn dcd_ld_r8_addrr16(r8: R8, r16: R16) -> (r: Decoded)
        ensures
            decodes_to(r, false, seq![(Op::Ld, Reg8(r8), AddrReg16(r16))]),
    {
        (false, Ok(Some(Instruction::new(
            (Op::Ld, Reg8(r8), AddrReg16(r16)), None,
        ))))
    }

    fn dcd_ld_r8_inaddru8(r8: R8) -> (r: Decoded)
        ensures
            decodes_to(r, false, seq![(Op::Ld, Reg8(r8), FetchInAddrU8)]),
    {
        (false, Ok(Some(Instruction::new(
            (Op::Ld, Reg8(r8), FetchInAddrU8), None,
        ))))
    }

    fn dcd_ld_addru16_r8(r8: R8) -> (r: Decoded)
        ensures
            decodes_to(r, false, seq![(Op::Ld, FetchAddrU16(None, None), Reg8(r8))]),
    {
        (false, Ok(Some(Instruction::new(
            (Op::Ld, FetchAddrU16(None, None), Reg8(r8)), None,
        ))))
    }

    fn dcd_ld_addru16_r16(r16: R16) -> (r: Decoded)
        ensures
            decodes_to(r, false, seq![(Op::Ld, FetchAddrU16(None, None), Reg16(r16))]),
    {
        (false, Ok(Some(Instruction::new(
            (Op::Ld, FetchAddrU16(None, None), Reg16(r16)), None,
        ))))
    }

    fn dcd_ld_addrr16_u8(r16: R16) -> (r: Decoded)
        ensures
            decodes_to(r, false, seq![(Op::Ld, AddrReg16(r16), FetchU8)]),
    {
        (false, Ok(Some(Instruction::new(
            (Op::Ld, AddrReg16(r16), FetchU8), None,
        ))))
    }

    fn dcd_ld_r8_inaddrr8(r81: R8, r82: R8) -> (r: Decoded)
        ensures
            decodes_to(r, false, seq![(Op::Ld, Reg8(r81), InAddrReg8(r82))]),
    {
        (false, Ok(Some(Instruction::new(
            (Op::Ld, Reg8(r81), InAddrReg8(r82)), None,
        ))))
    }

    fn dcd_ld_inaddrr8_r8(r81: R8, r82: R8) -> (r: Decoded)
        ensures
            decodes_to(r, false, seq![(Op::Ld, InAddrReg8(r81), Reg8(r82))]),
    {
        (false, Ok(Some(Instruction::new(
            (Op::Ld, InAddrReg8(r81), Reg8(r82)), None,
        ))))
    }

    fn dcd_ld_inaddru8_r8(r8: R8) -> (r: Decoded)
        ensures
            decodes_to(r, false, seq![(Op::Ld, FetchInAddrU8, Reg8(r8))]),
    {
        (false, Ok(Some(Instruction::new(
            (Op::Ld, FetchInAddrU8, Reg8(r8)), None,
        ))))
    }

    fn dcd_ld_r8_r8(r81: R8, r82: R8) -> (r: Decoded)
        ensures
            decodes_to(r, true, seq![(Op::Ld, Reg8(r81), Reg8(r82))]),
    {
        (true, Ok(Some(Instruction::new(
            (Op::Ld, Reg8(r81), Reg8(r82)), None,
        ))))
    }

    fn dcd_ld_r8_u8(r8: R8) -> (r: Decoded)
        ensures
            decodes_to(r, false, seq![(Op::Ld, Reg8(r8), FetchU8)]),
    {
        (false, Ok(Some(Instruction::new(
            (Op::Ld, Reg8(r8), FetchU8), None,
        ))))
    }

    fn dcd_ld_r16_r16(r161: R16, r162: R16) -> (r: Decoded)
        ensures
            decodes_to(r, false, seq![(Op::Ld, Reg16(r161), Reg16(r162))]),
    {
        let ins = Instruction::new(
            (Op::Ld, Reg16(r161), Reg16(r162)), None,
        );
        (false, Ok(Some(ins)))
    }

    fn dcd_ld_r16_u16(r81: R8, r82: R8) -> (r: Decoded)
        ensures
            decodes_to(r, false, seq![(Op::Ld, Reg8(r82), FetchU8), (Op::Ld, Reg8(r81), FetchU8)]),
    {
        let i1 = Instruction::new((Op::Ld, Reg8(r81), FetchU8), None);
        let i0 = Instruction::new((Op::Ld, Reg8(r82), FetchU8), Some(Box::new(i1)));
        assert(i0.chain() =~= seq![(Op::Ld, Reg8(r82), FetchU8), (Op::Ld, Reg8(r81), FetchU8)]);
        (false, Ok(Some(i0)))
    }

}

} // verus!
