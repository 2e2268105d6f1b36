use vstd::prelude::*;
use crate::cpu::hex_u16::HexU16;
use crate::cpu::hex_u8::HexU8;
use crate::cpu::instruction::Ins;
use crate::cpu::op_arg::OpArg;
use crate::cpu::registers::{R16, RegisterFile, Registers};
use crate::cpu::CPU;
use crate::mmu::{MMU, MmuState};

verus! {

/// A byte read as two's complement.
pub open spec fn as_i8(b: u8) -> i8 {
    if b < 128 {
        b as i8
    } else {
        (b - 256) as i8
    }
}

fn to_i8(b: u8) -> (r: i8)
    ensures
        r == as_i8(b),
{
    if b < 128 {
        b as i8
    } else {
        (b as i16 - 256) as i8
    }
}

/// A 16-bit operand from its two bytes, the low one fetched first.
pub open spec fn word(hi: u8, lo: u8) -> u16 {
    (hi * 256 + lo) as u16
}

/// Fetching an operand byte for `ins` from the instruction stream: whether
/// the micro-operation is then complete, the micro-operation with the byte in
/// place, and the registers with PC moved past the byte. A micro-operation
/// without operands to fetch is complete as it is.
#[verifier::opaque]
pub open spec fn fetch_effect(r: RegisterFile, m: MmuState, ins: Ins) -> (bool, Ins, RegisterFile) {
    let pc = r.get16(R16::PC);
    let b = m.read(pc as int);
    let r1 = r.set16(R16::PC, pc.wrapping_add(1));
    let (op, p1, p2) = ins;
    match (p1, p2) {
        (OpArg::FetchU8, _) => (true, (op, OpArg::U8(HexU8(b)), p2), r1),
        (_, OpArg::FetchU8) => (true, (op, p1, OpArg::U8(HexU8(b))), r1),
        (OpArg::FetchI8, _) => (true, (op, OpArg::I8(as_i8(b)), p2), r1),
        (_, OpArg::FetchI8) => (true, (op, p1, OpArg::I8(as_i8(b))), r1),
        (OpArg::FetchSPI8, _) => (true, (op, OpArg::SPI8(as_i8(b)), p2), r1),
        (_, OpArg::FetchSPI8) => (true, (op, p1, OpArg::SPI8(as_i8(b))), r1),
        (OpArg::FetchInAddrU8, _) => (false, (op, OpArg::InAddrU8(HexU8(b)), p2), r1),
        (_, OpArg::FetchInAddrU8) => (false, (op, p1, OpArg::InAddrU8(HexU8(b))), r1),
        (OpArg::FetchU16(None, None), _) => (
            false,
            (op, OpArg::FetchU16(None, Some(HexU8(b))), p2),
            r1,
        ),
        (OpArg::FetchU16(None, Some(lo)), _) => (
            true,
            (op, OpArg::U16(HexU16(word(b, lo.0))), p2),
            r1,
        ),
        (_, OpArg::FetchU16(None, None)) => (
            false,
            (op, p1, OpArg::FetchU16(None, Some(HexU8(b)))),
            r1,
        ),
        (_, OpArg::FetchU16(None, Some(lo))) => (
            true,
            (op, p1, OpArg::U16(HexU16(word(b, lo.0)))),
            r1,
        ),
        (OpArg::FetchAddrU16(None, None), _) => (
            false,
            (op, OpArg::FetchAddrU16(None, Some(HexU8(b))), p2),
            r1,
        ),
        (OpArg::FetchAddrU16(None, Some(lo)), _) => (
            true,
            (op, OpArg::AddrU16(HexU16(word(b, lo.0))), p2),
            r1,
        ),
        (_, OpArg::FetchAddrU16(None, None)) => (
            false,
            (op, p1, OpArg::FetchAddrU16(None, Some(HexU8(b)))),
            r1,
        ),
        (_, OpArg::FetchAddrU16(None, Some(lo))) => (
            true,
            (op, p1, OpArg::AddrU16(HexU16(word(b, lo.0)))),
            r1,
        ),
        _ => (true, ins, r),
    }
}

impl CPU {
    fn next_byte(registers: &mut Registers, mmu: &MMU) -> (r: u8)
        requires
            mmu@.wf(),
            mmu@.cart is Some,
        ensures
            r == mmu@.read(old(registers)@.get16(R16::PC) as int),
            final(registers)@ == old(registers)@.set16(
                R16::PC,
                old(registers)@.get16(R16::PC).wrapping_add(1),
            ),
    {
        mmu.get(registers.get16i(R16::PC, 1))
    }

    fn word(hi: u8, lo: u8) -> (r: u16)
        ensures
            r == word(hi, lo),
    {
        (hi as u16) * 256 + (lo as u16)
    }

    /// Fetches the next operand byte that `instruction` waits for.
    #[verifier::rlimit(50)]
    #[verifier::spinoff_prover]
    pub(crate) fn fetch(instruction: Ins, registers: &mut Registers, mmu: &MMU) -> (r: (bool, Ins))
        requires
            mmu@.wf(),
            mmu@.cart is Some,
        ensures
            ({
                let (done, ins, regs) = fetch_effect(old(registers)@, mmu@, instruction);
                r == (done, ins) && final(registers)@ == regs
            }),
    {
        proof {
            reveal(fetch_effect);
        }
        let (op, p1, p2) = instruction;
        match (p1, p2) {
            (OpArg::FetchU8, _) => (true, (op, OpArg::U8(HexU8(Self::next_byte(registers, mmu))), p2)),
            (_, OpArg::FetchU8) => (true, (op, p1, OpArg::U8(HexU8(Self::next_byte(registers, mmu))))),
            (OpArg::FetchI8, _) => (true, (op, OpArg::I8(to_i8(Self::next_byte(registers, mmu))), p2)),
            (_, OpArg::FetchI8) => (true, (op, p1, OpArg::I8(to_i8(Self::next_byte(registers, mmu))))),
            (OpArg::FetchSPI8, _) => (true, (op, OpArg::SPI8(to_i8(Self::next_byte(registers, mmu))), p2)),
            (_, OpArg::FetchSPI8) => (true, (op, p1, OpArg::SPI8(to_i8(Self::next_byte(registers, mmu))))),
            (OpArg::FetchInAddrU8, _) => (false, (op, OpArg::InAddrU8(HexU8(Self::next_byte(registers, mmu))), p2)),
            (_, OpArg::FetchInAddrU8) => (false, (op, p1, OpArg::InAddrU8(HexU8(Self::next_byte(registers, mmu))))),
            (OpArg::FetchU16(None, None), _) => (false, (op, OpArg::FetchU16(None, Some(HexU8(Self::next_byte(registers, mmu)))), p2)),
            (OpArg::FetchU16(None, Some(lo)), _) => {
                let hi = Self::next_byte(registers, mmu);
                (true, (op, OpArg::U16(HexU16(Self::word(hi, lo.0))), p2))
            },
            (_, OpArg::FetchU16(None, None)) => (false, (op, p1, OpArg::FetchU16(None, Some(HexU8(Self::next_byte(registers, mmu)))))),
            (_, OpArg::FetchU16(None, Some(lo))) => {
                let hi = Self::next_byte(registers, mmu);
                (true, (op, p1, OpArg::U16(HexU16(Self::word(hi, lo.0)))))
            },
            (OpArg::FetchAddrU16(None, None), _) => (false, (op, OpArg::FetchAddrU16(None, Some(HexU8(Self::next_byte(registers, mmu)))), p2)),
            (OpArg::FetchAddrU16(None, Some(lo)), _) => {
                let hi = Self::next_byte(registers, mmu);
                (true, (op, OpArg::AddrU16(HexU16(Self::word(hi, lo.0))), p2))
            },
            (_, OpArg::FetchAddrU16(None, None)) => (false, (op, p1, OpArg::FetchAddrU16(None, Some(HexU8(Self::next_byte(registers, mmu)))))),
            (_, OpArg::FetchAddrU16(None, Some(lo))) => {
                let hi = Self::next_byte(registers, mmu);
                (true, (op, p1, OpArg::AddrU16(HexU16(Self::word(hi, lo.0)))))
            },
            _ => (true, instruction),
        }
    }
}

} // verus!
