use vstd::prelude::*;
use crate::cpu::condition::Condition;
use crate::cpu::hex_u16::HexU16;
use crate::cpu::hex_u8::HexU8;
use crate::cpu::instruction::Ins;
use crate::cpu::op::Op;
use crate::cpu::op_arg::OpArg;
use crate::cpu::registers::{R16, R8};

verus! {

// The opcode map of the SM83 read through the usual field split of an opcode
// byte: x = bits 7-6, y = bits 5-3, z = bits 2-0, with p = y / 2 and q = y % 2.

pub open spec fn field_x(byte: u8) -> int {
    byte as int / 64
}

pub open spec fn field_y(byte: u8) -> int {
    (byte as int / 8) % 8
}

pub open spec fn field_z(byte: u8) -> int {
    byte as int % 8
}

/// r[i]: B, C, D, E, H, L, (HL), A.
pub open spec fn reg_operand(i: int) -> OpArg {
    if i == 0 {
        OpArg::Reg8(R8::B)
    } else if i == 1 {
        OpArg::Reg8(R8::C)
    } else if i == 2 {
        OpArg::Reg8(R8::D)
    } else if i == 3 {
        OpArg::Reg8(R8::E)
    } else if i == 4 {
        OpArg::Reg8(R8::H)
    } else if i == 5 {
        OpArg::Reg8(R8::L)
    } else if i == 6 {
        OpArg::AddrReg16(R16::HL)
    } else {
        OpArg::Reg8(R8::A)
    }
}

/// cc[i]: NZ, Z, NC, C.
pub open spec fn condition_at(i: int) -> Condition {
    if i == 0 {
        Condition::NZ
    } else if i == 1 {
        Condition::Z
    } else if i == 2 {
        Condition::NC
    } else {
        Condition::C
    }
}

/// rp[i]: BC, DE, HL, SP.
pub open spec fn pair_at(i: int) -> R16 {
    if i == 0 {
        R16::BC
    } else if i == 1 {
        R16::DE
    } else if i == 2 {
        R16::HL
    } else {
        R16::SP
    }
}

/// rp2[i]: BC, DE, HL, AF, the pairs that PUSH and POP move.
pub open spec fn stack_pair_at(i: int) -> R16 {
    if i == 3 {
        R16::AF
    } else {
        pair_at(i)
    }
}

/// alu[i]: ADD, ADC, SUB, SBC, AND, XOR, OR, CP.
pub open spec fn alu_at(i: int) -> Op {
    if i == 0 {
        Op::Add
    } else if i == 1 {
        Op::Adc
    } else if i == 2 {
        Op::Sub
    } else if i == 3 {
        Op::Sbc
    } else if i == 4 {
        Op::And
    } else if i == 5 {
        Op::Xor
    } else if i == 6 {
        Op::Or
    } else {
        Op::Cp
    }
}

/// rot[i]: RLC, RRC, RL, RR, SLA, SRA, SWAP, SRL.
pub open spec fn rot_at(i: int) -> Op {
    if i == 0 {
        Op::Rlc
    } else if i == 1 {
        Op::Rrc
    } else if i == 2 {
        Op::Rl
    } else if i == 3 {
        Op::Rr
    } else if i == 4 {
        Op::Sla
    } else if i == 5 {
        Op::Sra
    } else if i == 6 {
        Op::Swap
    } else {
        Op::Srl
    }
}

pub open spec fn one(ins: Ins) -> Seq<Ins> {
    seq![ins]
}

/// What a CB-prefixed opcode decodes to: whether it runs in the decoding cycle,
/// and its micro-operations.
pub open spec fn cb_opcode(byte: u8) -> (bool, Seq<Ins>) {
    let x = field_x(byte);
    let y = field_y(byte);
    let target = reg_operand(field_z(byte));
    let immediate = field_z(byte) != 6;
    if x == 0 {
        (immediate, one((rot_at(y), target, OpArg::Non)))
    } else {
        let op = if x == 1 {
            Op::Bit
        } else if x == 2 {
            Op::Res
        } else {
            Op::SetBit
        };
        (immediate, one((op, OpArg::U8(HexU8(y as u8)), target)))
    }
}

/// Reading the two bytes of a pair from the stack, low byte first.
pub open spec fn pop_into(hi: R8, lo: R8) -> Seq<Ins> {
    seq![
        (Op::Ld, OpArg::Reg8(lo), OpArg::AddrReg16i(R16::SP)),
        (Op::Ld, OpArg::Reg8(hi), OpArg::AddrReg16i(R16::SP)),
    ]
}

pub open spec fn x0_opcode(y: int, z: int) -> Option<(bool, Seq<Ins>)> {
    let p = y / 2;
    let q = y % 2;
    if z == 0 {
        if y == 0 {
            Some((true, one((Op::Nop, OpArg::Non, OpArg::Non))))
        } else if y == 1 {
            Some((false, one((Op::Ld, OpArg::FetchAddrU16(None, None), OpArg::Reg16(R16::SP)))))
        } else if y == 2 {
            None
        } else if y == 3 {
            Some((false, one((Op::Jr, OpArg::FetchI8, OpArg::Non))))
        } else {
            Some((false, one((Op::Jr, OpArg::CC(condition_at(y - 4)), OpArg::FetchI8))))
        }
    } else if z == 1 {
        if q == 0 {
            Some((false, seq![
                (Op::Ld, OpArg::Reg8(pair_at(p).low()), OpArg::FetchU8),
                (Op::Ld, OpArg::Reg8(pair_at(p).high()), OpArg::FetchU8),
            ]))
        } else {
            Some((false, one((Op::Add, OpArg::Reg16(R16::HL), OpArg::Reg16(pair_at(p))))))
        }
    } else if z == 2 {
        let mem = if p == 0 {
            OpArg::AddrReg16(R16::BC)
        } else if p == 1 {
            OpArg::AddrReg16(R16::DE)
        } else if p == 2 {
            OpArg::AddrReg16i(R16::HL)
        } else {
            OpArg::AddrReg16d(R16::HL)
        };
        if q == 0 {
            Some((false, one((Op::Ld, mem, OpArg::Reg8(R8::A)))))
        } else {
            Some((false, one((Op::Ld, OpArg::Reg8(R8::A), mem))))
        }
    } else if z == 3 {
        let op = if q == 0 {
            Op::Inc
        } else {
            Op::Dec
        };
        Some((false, one((op, OpArg::Reg16(pair_at(p)), OpArg::Non))))
    } else if z == 4 {
        Some((y != 6, one((Op::Inc, reg_operand(y), OpArg::Non))))
    } else if z == 5 {
        Some((y != 6, one((Op::Dec, reg_operand(y), OpArg::Non))))
    } else if z == 6 {
        Some((false, one((Op::Ld, reg_operand(y), OpArg::FetchU8))))
    } else {
        let op = if y == 0 {
            Op::Rlca
        } else if y == 1 {
            Op::Rrca
        } else if y == 2 {
            Op::Rla
        } else if y == 3 {
            Op::Rra
        } else if y == 4 {
            Op::Daa
        } else if y == 5 {
            Op::Cpl
        } else if y == 6 {
            Op::Scf
        } else {
            Op::Ccf
        };
        Some((true, one((op, OpArg::Non, OpArg::Non))))
    }
}

pub open spec fn x3_opcode(y: int, z: int) -> Option<(bool, Seq<Ins>)> {
    let p = y / 2;
    let q = y % 2;
    if z == 0 {
        if y < 4 {
            Some((false, one((Op::Ret, OpArg::CC(condition_at(y)), OpArg::Non))))
        } else if y == 4 {
            Some((false, one((Op::Ld, OpArg::FetchInAddrU8, OpArg::Reg8(R8::A)))))
        } else if y == 5 {
            Some((false, one((Op::Add, OpArg::Reg16(R16::SP), OpArg::FetchI8))))
        } else if y == 6 {
            Some((false, one((Op::Ld, OpArg::Reg8(R8::A), OpArg::FetchInAddrU8))))
        } else {
            Some((false, one((Op::Ld, OpArg::Reg16(R16::HL), OpArg::FetchSPI8))))
        }
    } else if z == 1 {
        if q == 0 {
            Some((false, pop_into(stack_pair_at(p).high(), stack_pair_at(p).low())))
        } else if p == 0 {
            Some((false, seq![
                (Op::Ld, OpArg::Reg8(R8::PCl), OpArg::AddrReg16i(R16::SP)),
                (Op::Ld, OpArg::Reg8(R8::PCh), OpArg::AddrReg16i(R16::SP)),
                (Op::Internal, OpArg::Non, OpArg::Non),
            ]))
        } else if p == 1 {
            Some((false, seq![
                (Op::Ld, OpArg::Reg8(R8::PCl), OpArg::AddrReg16i(R16::SP)),
                (Op::Ld, OpArg::Reg8(R8::PCh), OpArg::AddrReg16i(R16::SP)),
                (Op::EiImm, OpArg::Non, OpArg::Non),
            ]))
        } else if p == 2 {
            Some((true, one((Op::Jp, OpArg::Reg16(R16::HL), OpArg::Non))))
        } else {
            Some((false, one((Op::Ld, OpArg::Reg16(R16::SP), OpArg::Reg16(R16::HL)))))
        }
    } else if z == 2 {
        if y < 4 {
            Some((false, one((Op::Jp, OpArg::CC(condition_at(y)), OpArg::FetchU16(None, None)))))
        } else if y == 4 {
            Some((false, one((Op::Ld, OpArg::InAddrReg8(R8::C), OpArg::Reg8(R8::A)))))
        } else if y == 5 {
            Some((false, one((Op::Ld, OpArg::FetchAddrU16(None, None), OpArg::Reg8(R8::A)))))
        } else if y == 6 {
            Some((false, one((Op::Ld, OpArg::Reg8(R8::A), OpArg::InAddrReg8(R8::C)))))
        } else {
            Some((false, one((Op::Ld, OpArg::Reg8(R8::A), OpArg::FetchAddrU16(None, None)))))
        }
    } else if z == 3 {
        if y == 0 {
            Some((false, one((Op::Jp, OpArg::FetchU16(None, None), OpArg::Non))))
        } else if y == 1 {
            Some((false, one((Op::DcdCB, OpArg::FetchU8, OpArg::Non))))
        } else if y == 6 {
            Some((true, one((Op::Di, OpArg::Non, OpArg::Non))))
        } else if y == 7 {
            Some((true, one((Op::Ei, OpArg::Non, OpArg::Non))))
        } else {
            None
        }
    } else if z == 4 {
        if y < 4 {
            Some((false, one((Op::Call, OpArg::CC(condition_at(y)), OpArg::FetchU16(None, None)))))
        } else {
            None
        }
    } else if z == 5 {
        if q == 0 {
            Some((false, seq![
                (Op::Internal, OpArg::Non, OpArg::Non),
                (Op::Ld, OpArg::AddrRegd16(R16::SP), OpArg::Reg8(stack_pair_at(p).high())),
                (Op::Ld, OpArg::AddrRegd16(R16::SP), OpArg::Reg8(stack_pair_at(p).low())),
            ]))
        } else if p == 0 {
            Some((false, one((Op::Call, OpArg::FetchU16(None, None), OpArg::Non))))
        } else {
            None
        }
    } else if z == 6 {
        Some((false, one((alu_at(y), OpArg::Reg8(R8::A), OpArg::FetchU8))))
    } else {
        Some((false, one((Op::Rst, OpArg::U16(HexU16((y * 8) as u16)), OpArg::Non))))
    }
}

/// What an unprefixed opcode decodes to, or `None` for an opcode the CPU does not run.
pub open spec fn base_opcode(byte: u8) -> Option<(bool, Seq<Ins>)> {
    let x = field_x(byte);
    let y = field_y(byte);
    let z = field_z(byte);
    if x == 0 {
        x0_opcode(y, z)
    } else if x == 1 {
        if byte == 0x76 {
            Some((false, one((Op::Halt, OpArg::Non, OpArg::Non))))
        } else {
            Some((y != 6 && z != 6, one((Op::Ld, reg_operand(y), reg_operand(z)))))
        }
    } else if x == 2 {
        Some((z != 6, one((alu_at(y), OpArg::Reg8(R8::A), reg_operand(z)))))
    } else {
        x3_opcode(y, z)
    }
}

/// The opcodes that the CPU does not run: STOP and the eleven unused ones.
pub open spec fn is_unrun_opcode(byte: u8) -> bool {
    byte == 0x10 || byte == 0xD3 || byte == 0xDB || byte == 0xDD || byte == 0xE3 || byte == 0xE4
        || byte == 0xEB || byte == 0xEC || byte == 0xED || byte == 0xF4 || byte == 0xFC || byte
        == 0xFD
}

/// Every opcode decodes but those.
#[verifier::rlimit(50)]
pub proof fn lemma_opcode_coverage(byte: u8)
    ensures
        base_opcode(byte) is None <==> is_unrun_opcode(byte),
{
}

} // verus!
