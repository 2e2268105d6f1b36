use vstd::prelude::*;
use crate::cpu::condition::Condition;
use crate::cpu::fflag::FFlag;
use crate::cpu::hex_u16::HexU16;
use crate::cpu::hex_u8::HexU8;
use crate::cpu::instruction::{Ins, Instruction};
use crate::cpu::op::Op;
use crate::cpu::op_arg::OpArg;
use crate::cpu::opcodes::{base_opcode, cb_opcode};
use crate::cpu::registers::{R16, R8, RegisterFile, lemma_flag_round_trip};
use crate::cpu::CpuState;
use crate::mmu::MmuState;
use crate::text::hex_byte_text;
use crate::cpu::trace::unknown_instruction_text;

verus! {

// What one micro-operation does: to the registers and the CPU's flags, to
// memory (at most one byte written), and which micro-operations follow.

/// What follows a micro-operation.
pub enum Next {
    /// The rest of the current chain.
    Done,
    /// These micro-operations, in place of the rest of the chain.
    Then(Seq<Ins>),
    /// The micro-operation is not one the CPU runs.
    Unknown(Ins),
    /// The opcode byte is not one the CPU runs.
    BadOpcode(u8),
}

/// The outcome of a micro-operation.
pub struct Effect {
    pub cpu: CpuState,
    pub write: Option<(u16, u8)>,
    pub next: Next,
}


/// `r` is what the executor hands back for `next`.
pub open spec fn result_is(r: Result<Option<Instruction>, String>, next: Next) -> bool {
    match next {
        Next::Done => r matches Ok(None),
        Next::Then(c) => r matches Ok(Some(i)) && i.chain() == c,
        Next::Unknown(ins) => r matches Err(m) && m@ == unknown_instruction_text(ins),
        Next::BadOpcode(b) => r matches Err(m) && m@ == "[DCD] Unknown opcode "@ + hex_byte_text(b),
    }
}

pub open spec fn one(ins: Ins) -> Seq<Ins> {
    seq![ins]
}

pub open spec fn internal() -> Ins {
    (Op::Internal, OpArg::Non, OpArg::Non)
}

/// Z, N, H and C set in that order.
pub open spec fn flags4(r: RegisterFile, z: bool, n: bool, h: bool, c: bool) -> RegisterFile {
    r.set_flag(FFlag::Z, z).set_flag(FFlag::N, n).set_flag(FFlag::H, h).set_flag(FFlag::C, c)
}

/// The carry flag as a number.
pub open spec fn carry_in(r: RegisterFile) -> u16 {
    if r.flag(FFlag::C) {
        1
    } else {
        0
    }
}

pub open spec fn condition_holds(r: RegisterFile, c: Condition) -> bool {
    match c {
        Condition::NZ => !r.flag(FFlag::Z),
        Condition::Z => r.flag(FFlag::Z),
        Condition::NC => !r.flag(FFlag::C),
        Condition::C => r.flag(FFlag::C),
    }
}

/// An 8-bit displacement extended to 16 bits, as two's complement.
pub open spec fn sext16(e: i8) -> u16 {
    if e < 0 {
        (e + 0x10000) as u16
    } else {
        e as u16
    }
}

/// The target of a relative jump: PC plus the displacement, modulo 2^16.
pub open spec fn jr_target(pc: u16, e: i8) -> u16 {
    pc.wrapping_add(sext16(e))
}

// The arithmetic and logic unit: the result and the registers with the flags
// that the operation sets.
/// The four flags read back as `flags4` set them.
pub proof fn lemma_flags4(r: RegisterFile, z: bool, n: bool, h: bool, c: bool)
    ensures
        flags4(r, z, n, h, c).flag(FFlag::Z) == z,
        flags4(r, z, n, h, c).flag(FFlag::N) == n,
        flags4(r, z, n, h, c).flag(FFlag::H) == h,
        flags4(r, z, n, h, c).flag(FFlag::C) == c,
{
    let r1 = r.set_flag(FFlag::Z, z);
    let r2 = r1.set_flag(FFlag::N, n);
    let r3 = r2.set_flag(FFlag::H, h);
    lemma_flag_round_trip(r, FFlag::Z, z, FFlag::Z);
    lemma_flag_round_trip(r1, FFlag::N, n, FFlag::Z);
    lemma_flag_round_trip(r1, FFlag::N, n, FFlag::N);
    lemma_flag_round_trip(r2, FFlag::H, h, FFlag::Z);
    lemma_flag_round_trip(r2, FFlag::H, h, FFlag::N);
    lemma_flag_round_trip(r2, FFlag::H, h, FFlag::H);
    lemma_flag_round_trip(r3, FFlag::C, c, FFlag::Z);
    lemma_flag_round_trip(r3, FFlag::C, c, FFlag::N);
    lemma_flag_round_trip(r3, FFlag::C, c, FFlag::H);
    lemma_flag_round_trip(r3, FFlag::C, c, FFlag::C);
}

proof fn lemma_sum_bits()
    by (bit_vector)
    ensures
        forall|x: u16| x < 0x200 ==> (#[trigger] (x & 0xFF)) == x % 256,
        forall|x: u16| x < 0x200 ==> ((#[trigger] (x & 0xFF00)) != 0) == (x >= 256),
{
}

/// ADD: the sum modulo 256; Z when it is 0, C when the sum passes 255, N
/// clear.
pub proof fn lemma_add8(r: RegisterFile, a: u8, b: u8)
    ensures
        add8(r, a, b).0 == (a + b) % 256,
        add8(r, a, b).1.flag(FFlag::Z) == ((a + b) % 256 == 0),
        add8(r, a, b).1.flag(FFlag::C) == (a + b > 255),
        !add8(r, a, b).1.flag(FFlag::N),
{
    lemma_sum_bits();
    let res = (a + b) as u16;
    assert(res & 0xFF == res % 256);
    assert((res & 0xFF00 != 0) == (res >= 256));
    lemma_flags4(r, res & 0xFF == 0, false, (a & 0x0F) + (b & 0x0F) > 0x0F, res & 0xFF00 != 0);
}

/// ADC: the sum with the carry, modulo 256; C when it passes 255.
pub proof fn lemma_adc8(r: RegisterFile, a: u8, b: u8)
    ensures
        adc8(r, a, b).0 == (a + b + carry_in(r)) % 256,
        adc8(r, a, b).1.flag(FFlag::C) == (a + b + carry_in(r) > 255),
        !adc8(r, a, b).1.flag(FFlag::N),
{
    lemma_sum_bits();
    let res = (a + b + carry_in(r)) as u16;
    assert(res & 0xFF == res % 256);
    assert((res & 0xFF00 != 0) == (res >= 256));
    lemma_flags4(
        r,
        res & 0xFF == 0,
        false,
        (a & 0x0F) + (b & 0x0F) + carry_in(r) > 0x0F,
        res & 0xFF00 != 0,
    );
}

/// SUB (and CP, which keeps only the flags): the difference modulo 256; C on
/// a borrow, that is when `b` exceeds `a`; N set; Z when they are equal.
pub proof fn lemma_sub8(r: RegisterFile, a: u8, b: u8)
    ensures
        sub8(r, a, b).0 == (a - b + 256) % 256,
        sub8(r, a, b).1.flag(FFlag::C) == (a < b),
        sub8(r, a, b).1.flag(FFlag::Z) == (a == b),
        sub8(r, a, b).1.flag(FFlag::N),
{
    let res = a.wrapping_sub(b);
    lemma_flags4(r, res == 0, true, (a & 0x0F) < (b & 0x0F), a < b);
}

/// The logic operations leave C clear and set Z when the result is 0; AND
/// sets H.
pub proof fn lemma_logic8(r: RegisterFile, a: u8, b: u8)
    ensures
        and8(r, a, b).0 == a & b && !and8(r, a, b).1.flag(FFlag::C) && and8(r, a, b).1.flag(FFlag::H),
        or8(r, a, b).0 == a | b && !or8(r, a, b).1.flag(FFlag::C),
        xor8(r, a, b).0 == a ^ b && !xor8(r, a, b).1.flag(FFlag::C),
        and8(r, a, b).1.flag(FFlag::Z) == (a & b == 0),
        xor8(r, a, b).1.flag(FFlag::Z) == (a ^ b == 0),
{
    lemma_flags4(r, a & b == 0, false, true, false);
    lemma_flags4(r, a | b == 0, false, false, false);
    lemma_flags4(r, a ^ b == 0, false, false, false);
}

pub open spec fn add8(r: RegisterFile, a: u8, b: u8) -> (u8, RegisterFile) {
    let res = (a + b) as u16;
    (
        (res & 0xff) as u8,
        flags4(r, res & 0xFF == 0, false, (a & 0x0F) + (b & 0x0F) > 0x0F, res & 0xFF00 != 0),
    )
}

pub open spec fn adc8(r: RegisterFile, a: u8, b: u8) -> (u8, RegisterFile) {
    let carry = carry_in(r);
    let res = (a + b + carry) as u16;
    (
        (res & 0xff) as u8,
        flags4(
            r,
            res & 0xFF == 0,
            false,
            (a & 0x0F) + (b & 0x0F) + carry > 0x0F,
            res & 0xFF00 != 0,
        ),
    )
}

pub open spec fn sub8(r: RegisterFile, a: u8, b: u8) -> (u8, RegisterFile) {
    let res = a.wrapping_sub(b);
    (res, flags4(r, res == 0, true, (a & 0x0F) < (b & 0x0F), a < b))
}

pub open spec fn sbc8(r: RegisterFile, a: u8, b: u8) -> (u8, RegisterFile) {
    let carry = carry_in(r);
    let res = (a as u16).wrapping_sub(b as u16).wrapping_sub(carry);
    let half = ((a & 0x0F) as u16).wrapping_sub((b & 0x0F) as u16).wrapping_sub(carry);
    ((res & 0xFF) as u8, flags4(r, res & 0xFF == 0, true, half > 0x0F, res & 0xFF00 != 0))
}

pub open spec fn and8(r: RegisterFile, a: u8, b: u8) -> (u8, RegisterFile) {
    let res = a & b;
    (res, flags4(r, res == 0, false, true, false))
}

pub open spec fn or8(r: RegisterFile, a: u8, b: u8) -> (u8, RegisterFile) {
    let res = a | b;
    (res, flags4(r, res == 0, false, false, false))
}

pub open spec fn xor8(r: RegisterFile, a: u8, b: u8) -> (u8, RegisterFile) {
    let res = a ^ b;
    (res, flags4(r, res == 0, false, false, false))
}

/// INC: C is kept; H on a carry out of bit 3.
pub open spec fn inc8(r: RegisterFile, v: u8) -> (u8, RegisterFile) {
    let res = v.wrapping_add(1);
    (
        res,
        r.set_flag(FFlag::Z, res == 0).set_flag(FFlag::N, false).set_flag(
            FFlag::H,
            (v & 0x0F) + 1 > 0x0F,
        ),
    )
}

/// DEC: C is kept; H on a borrow from bit 4.
pub open spec fn dec8(r: RegisterFile, v: u8) -> (u8, RegisterFile) {
    let res = v.wrapping_sub(1);
    (
        res,
        r.set_flag(FFlag::Z, res == 0).set_flag(FFlag::N, true).set_flag(
            FFlag::H,
            (v & 0x0F) == 0,
        ),
    )
}

pub open spec fn rl8(r: RegisterFile, v: u8) -> (u8, RegisterFile) {
    let res = (v << 1u8) | (carry_in(r) as u8);
    (res, flags4(r, res == 0, false, false, v & 0x80 == 0x80))
}

pub open spec fn rlc8(r: RegisterFile, v: u8) -> (u8, RegisterFile) {
    let carry = (v >> 7u8) & 1;
    let res = (v << 1u8) | carry;
    (res, flags4(r, res == 0, false, false, carry == 1))
}

pub open spec fn rr8(r: RegisterFile, v: u8) -> (u8, RegisterFile) {
    let res = (v >> 1u8) | (if r.flag(FFlag::C) {
        0x80u8
    } else {
        0u8
    });
    (res, flags4(r, res == 0, false, false, v & 1 == 1))
}

pub open spec fn rrc8(r: RegisterFile, v: u8) -> (u8, RegisterFile) {
    let carry = v & 1;
    let res = (v >> 1u8) | (carry << 7u8);
    (res, flags4(r, res == 0, false, false, carry == 1))
}

pub open spec fn sla8(r: RegisterFile, v: u8) -> (u8, RegisterFile) {
    let carry = (v >> 7u8) & 1;
    let res = v << 1u8;
    (res, flags4(r, res == 0, false, false, carry == 1))
}

pub open spec fn sra8(r: RegisterFile, v: u8) -> (u8, RegisterFile) {
    let res = (v >> 1u8) | (v & 0x80);
    (res, flags4(r, res == 0, false, false, v & 1 == 1))
}

pub open spec fn srl8(r: RegisterFile, v: u8) -> (u8, RegisterFile) {
    let res = v >> 1u8;
    (res, flags4(r, res == 0, false, false, v & 1 == 1))
}

/// SRA is an arithmetic shift and SRL a logical one: both halve the byte,
/// rounding down, and move bit 0 into C, but SRA keeps bit 7 where SRL
/// clears it, so SRA halves the byte read as a signed number. Z is set when
/// the result is 0; N and H end clear.
pub proof fn lemma_shift_right8(r: RegisterFile, v: u8)
    ensures
        sra8(r, v).0 == v / 2 + 128 * (v / 128),
        srl8(r, v).0 == v / 2,
        (sra8(r, v).0 >= 128) == (v >= 128),
        sra8(r, v).1.flag(FFlag::C) == (v % 2 == 1),
        srl8(r, v).1.flag(FFlag::C) == (v % 2 == 1),
        sra8(r, v).1.flag(FFlag::Z) == (sra8(r, v).0 == 0),
        srl8(r, v).1.flag(FFlag::Z) == (v < 2),
        !sra8(r, v).1.flag(FFlag::N) && !sra8(r, v).1.flag(FFlag::H),
        !srl8(r, v).1.flag(FFlag::N) && !srl8(r, v).1.flag(FFlag::H),
{
    assert({
        &&& (v >> 1u8) | (v & 0x80) == v / 2 + 128 * (v / 128)
        &&& v >> 1u8 == v / 2
        &&& (v & 1 == 1) == (v % 2 == 1)
    }) by (bit_vector);
    let a = (v >> 1u8) | (v & 0x80);
    lemma_flags4(r, a == 0, false, false, v & 1 == 1);
    lemma_flags4(r, v >> 1u8 == 0, false, false, v & 1 == 1);
}

pub open spec fn swap8(r: RegisterFile, v: u8) -> (u8, RegisterFile) {
    let res = ((v >> 4u8) & 0x0F) | ((v & 0x0F) << 4u8);
    (res, flags4(r, res == 0, false, false, false))
}

// The bit number of BIT, RES and SET counts modulo 8, as a shift of a byte
// by it does.

/// BIT: Z when the bit is clear; C is kept.
pub open spec fn bit8(r: RegisterFile, b: u8, v: u8) -> RegisterFile {
    r.set_flag(FFlag::Z, (v >> (b % 8)) & 1 == 0).set_flag(FFlag::N, false).set_flag(
        FFlag::H,
        true,
    )
}

pub open spec fn set_bit(b: u8, v: u8) -> u8 {
    v | (1u8 << (b % 8))
}

pub open spec fn res_bit(b: u8, v: u8) -> u8 {
    v & !(1u8 << (b % 8))
}

/// DAA: corrects A after a BCD addition or subtraction, as the flags left it.
pub open spec fn daa(r: RegisterFile) -> RegisterFile {
    let a = r.get8(R8::A);
    let carry = r.flag(FFlag::C);
    let half = r.flag(FFlag::H);
    let r1 = if !r.flag(FFlag::N) {
        let low = if half || (a & 0xf) > 0x9 {
            0x6u8
        } else {
            0u8
        };
        let high = carry || a > 0x99;
        let correction = if high {
            (low + 0x60) as u8
        } else {
            low
        };
        let r0 = if high {
            r.set_flag(FFlag::C, true)
        } else {
            r
        };
        r0.set8(R8::A, a.wrapping_add(correction))
    } else if carry {
        r.set_flag(FFlag::C, true).set8(
            R8::A,
            a.wrapping_add(
                if half {
                    0x9a
                } else {
                    0xa0
                },
            ),
        )
    } else if half {
        r.set8(R8::A, a.wrapping_add(0xFA))
    } else {
        r
    };
    r1.set_flag(FFlag::Z, r1.get8(R8::A) == 0).set_flag(FFlag::H, false)
}

/// A byte of packed BCD: two decimal digits, one per nibble.
pub open spec fn is_bcd(x: u8) -> bool {
    (x & 0xF) <= 9 && (x >> 4u8) <= 9
}

/// The number that a packed BCD byte stands for.
pub open spec fn bcd_value(x: u8) -> int {
    10 * (x >> 4u8) + (x & 0xF)
}

/// The packed BCD byte of a number below 100.
pub open spec fn bcd_of(n: int) -> int {
    16 * (n / 10) + n % 10
}

proof fn lemma_daa_arith(a: u8, b: u8)
    by (bit_vector)
    requires
        (a & 0xF) <= 9 && (a >> 4u8) <= 9,
        (b & 0xF) <= 9 && (b >> 4u8) <= 9,
    ensures
        ({
            let s = (((a as u16 + b as u16) as u16) & 0xFF) as u8;
            let h = (a & 0x0F) + (b & 0x0F) > 0x0F;
            let c = a as u16 + b as u16 > 0xFF;
            let low: u8 = if h || (s & 0xf) > 0x9 { 0x6u8 } else { 0u8 };
            let high = c || s > 0x99;
            let corr: u8 = if high { (low + 0x60) as u8 } else { low };
            let n = 10 * (a >> 4u8) + (a & 0xF) + 10 * (b >> 4u8) + (b & 0xF);
            &&& ((s as u16 + corr as u16) as u16) & 0xFF == 16 * ((n % 100) / 10) + (n % 100) % 10
            &&& high == (n >= 100)
        }),
{
}

/// ADD of two packed BCD bytes followed by DAA gives the decimal sum, modulo
/// 100, in packed BCD, with C set when the sum reaches 100, and Z when the
/// result is 0; N and H end clear.
pub proof fn lemma_add_then_daa(r: RegisterFile, a: u8, b: u8)
    requires
        is_bcd(a),
        is_bcd(b),
    ensures
        ({
            let (s, r1) = add8(r, a, b);
            let r2 = daa(r1.set8(R8::A, s));
            &&& r2.get8(R8::A) == bcd_of((bcd_value(a) + bcd_value(b)) % 100)
            &&& r2.flag(FFlag::C) == (bcd_value(a) + bcd_value(b) >= 100)
            &&& r2.flag(FFlag::Z) == (r2.get8(R8::A) == 0)
            &&& !r2.flag(FFlag::H)
            &&& !r2.flag(FFlag::N)
        }),
{
    let (s, r1) = add8(r, a, b);
    lemma_add8(r, a, b);
    lemma_sum_bits();
    lemma_flags4(r, ((a + b) as u16) & 0xFF == 0, false, (a & 0x0F) + (b & 0x0F) > 0x0F, ((a + b) as u16) & 0xFF00 != 0);
    lemma_daa_arith(a, b);
    let ra = r1.set8(R8::A, s);
    assert(ra.flag(FFlag::H) == ((a & 0x0F) + (b & 0x0F) > 0x0F));
    assert(ra.flag(FFlag::C) == (a + b > 255));
    assert(!ra.flag(FFlag::N));
    let low: u8 = if ra.flag(FFlag::H) || (s & 0xf) > 0x9 { 0x6u8 } else { 0u8 };
    let high = ra.flag(FFlag::C) || s > 0x99;
    let corr: u8 = if high { (low + 0x60) as u8 } else { low };
    let r0 = if high { ra.set_flag(FFlag::C, true) } else { ra };
    let rr = r0.set8(R8::A, s.wrapping_add(corr));
    assert(s.wrapping_add(corr) == ((s as u16 + corr as u16) as u16) & 0xFF) by (bit_vector);
    lemma_flag_round_trip(ra, FFlag::C, true, FFlag::C);
    lemma_flag_round_trip(ra, FFlag::C, true, FFlag::N);
    let rz = rr.set_flag(FFlag::Z, rr.get8(R8::A) == 0);
    lemma_flag_round_trip(rr, FFlag::Z, rr.get8(R8::A) == 0, FFlag::C);
    lemma_flag_round_trip(rr, FFlag::Z, rr.get8(R8::A) == 0, FFlag::N);
    lemma_flag_round_trip(rr, FFlag::Z, rr.get8(R8::A) == 0, FFlag::Z);
    lemma_flag_round_trip(rz, FFlag::H, false, FFlag::C);
    lemma_flag_round_trip(rz, FFlag::H, false, FFlag::N);
    lemma_flag_round_trip(rz, FFlag::H, false, FFlag::Z);
    lemma_flag_round_trip(rz, FFlag::H, false, FFlag::H);
}

/// ADD HL,rr: H on a carry out of bit 11, C out of bit 15; Z is kept.
pub open spec fn add16(r: RegisterFile, dst: R16, src: R16) -> RegisterFile {
    let a = r.get16(dst);
    let b = r.get16(src);
    r.set_flag(FFlag::N, false).set_flag(FFlag::H, (a & 0x0FFF) + (b & 0x0FFF) > 0xFFF).set_flag(
        FFlag::C,
        ((a + b) as u32) & 0xFF0000 != 0,
    ).set16(dst, a.wrapping_add(b))
}

/// ADD SP,e: flags from the low byte of the sum.
pub open spec fn add_sp_e(r: RegisterFile, dst: R16, e: i8) -> RegisterFile {
    let v = r.get16(dst);
    let u = sext16(e);
    flags4(
        r.set16(dst, v.wrapping_add(u)),
        false,
        false,
        (v & 0x0F) + (u & 0x0F) > 0x0F,
        (v & 0xFF) + (u & 0xFF) > 0xFF,
    )
}

/// LD HL,SP+e: flags as for ADD SP,e.
pub open spec fn ld_sp_e(r: RegisterFile, dst: R16, e: i8) -> RegisterFile {
    let sp = r.get16(R16::SP);
    let u = sext16(e);
    flags4(r, false, false, (sp & 0xf) + (u & 0xf) > 0xf, (sp & 0xff) + (u & 0xff) > 0xff).set16(
        dst,
        sp.wrapping_add(u),
    )
}

/// The two stack writes that push a 16-bit value, high byte first.
pub open spec fn push(v: u16) -> Seq<Ins> {
    seq![
        (Op::Ld, OpArg::AddrRegd16(R16::SP), OpArg::U8(HexU8((v / 256) as u8))),
        (Op::Ld, OpArg::AddrRegd16(R16::SP), OpArg::U8(HexU8((v % 256) as u8))),
    ]
}

/// The stack reads of a return, then the cycle that loads PC.
pub open spec fn ret_chain() -> Seq<Ins> {
    seq![
        (Op::Ld, OpArg::Reg8(R8::PCl), OpArg::AddrReg16i(R16::SP)),
        (Op::Ld, OpArg::Reg8(R8::PCh), OpArg::AddrReg16i(R16::SP)),
        internal(),
    ]
}

/// The write of a byte computed from memory back to its address.
pub open spec fn store(address: u16, v: u8) -> Seq<Ins> {
    one((Op::Ld, OpArg::AddrU16(HexU16(address)), OpArg::U8(HexU8(v))))
}

pub open spec fn with_regs(s: CpuState, r: RegisterFile) -> CpuState {
    CpuState { registers: r, ..s }
}

/// An ALU result stored into register `dst`.
pub open spec fn alu_into(s: CpuState, dst: R8, out: (u8, RegisterFile)) -> (CpuState, Next) {
    (with_regs(s, out.1.set8(dst, out.0)), Next::Done)
}

/// CALL: PC is set at once; an internal cycle, then the old PC is pushed.
pub open spec fn call(s: CpuState, target: u16) -> (CpuState, Next) {
    let pc = s.registers.get16(R16::PC);
    (
        with_regs(s, s.registers.set16(R16::PC, target)),
        Next::Then(seq![internal()] + push(pc)),
    )
}

/// What a micro-operation that does not touch memory does.
pub open spec fn reg_effect(s: CpuState, ins: Ins) -> (CpuState, Next) {
    let r = s.registers;
    match ins {
        (Op::Adc, OpArg::Reg8(d), OpArg::U8(v)) => alu_into(s, d, adc8(r, r.get8(d), v.0)),
        (Op::Adc, OpArg::Reg8(d), OpArg::Reg8(x)) => alu_into(s, d, adc8(r, r.get8(d), r.get8(x))),
        (Op::Add, OpArg::Reg16(d), OpArg::I8(e)) => (
            with_regs(s, add_sp_e(r, d, e)),
            Next::Then(seq![internal(), internal()]),
        ),
        (Op::Add, OpArg::Reg16(d), OpArg::Reg16(x)) => (with_regs(s, add16(r, d, x)), Next::Done),
        (Op::Add, OpArg::Reg8(d), OpArg::Reg8(x)) => alu_into(s, d, add8(r, r.get8(d), r.get8(x))),
        (Op::Add, OpArg::Reg8(d), OpArg::U8(v)) => alu_into(s, d, add8(r, r.get8(d), v.0)),
        (Op::And, OpArg::Reg8(d), OpArg::U8(v)) => alu_into(s, d, and8(r, r.get8(d), v.0)),
        (Op::And, OpArg::Reg8(d), OpArg::Reg8(x)) => alu_into(s, d, and8(r, r.get8(d), r.get8(x))),
        (Op::Bit, OpArg::U8(b), OpArg::Reg8(x)) => (
            with_regs(s, bit8(r, b.0, r.get8(x))),
            Next::Done,
        ),
        (Op::Call, OpArg::CC(c), OpArg::U16(a)) => if condition_holds(r, c) {
            call(s, a.0)
        } else {
            (s, Next::Done)
        },
        (Op::Call, OpArg::U16(a), OpArg::Non) => call(s, a.0),
        (Op::Ccf, OpArg::Non, OpArg::Non) => (
            with_regs(
                s,
                r.set_flag(FFlag::N, false).set_flag(FFlag::H, false).set_flag(
                    FFlag::C,
                    !r.flag(FFlag::C),
                ),
            ),
            Next::Done,
        ),
        (Op::Cp, OpArg::Reg8(d), OpArg::U8(v)) => (
            with_regs(s, sub8(r, r.get8(d), v.0).1),
            Next::Done,
        ),
        (Op::Cp, OpArg::Reg8(d), OpArg::Reg8(x)) => (
            with_regs(s, sub8(r, r.get8(d), r.get8(x)).1),
            Next::Done,
        ),
        (Op::Cpl, OpArg::Non, OpArg::Non) => (
            with_regs(
                s,
                r.set_flag(FFlag::N, true).set_flag(FFlag::H, true).set8(R8::A, !r.get8(R8::A)),
            ),
            Next::Done,
        ),
        (Op::Daa, OpArg::Non, OpArg::Non) => (with_regs(s, daa(r)), Next::Done),
        (Op::Dec, OpArg::Reg16(d), OpArg::Non) => (
            with_regs(s, r.set16(d, r.get16(d).wrapping_sub(1))),
            Next::Done,
        ),
        (Op::Dec, OpArg::Reg8(d), OpArg::Non) => alu_into(s, d, dec8(r, r.get8(d))),
        (Op::Di, OpArg::Non, OpArg::Non) => (
            CpuState { ime_requested: false, ime: false, ..s },
            Next::Done,
        ),
        (Op::Ei, OpArg::Non, OpArg::Non) => (CpuState { ime_requested: true, ..s }, Next::Done),
        (Op::EiImm, OpArg::Non, OpArg::Non) => (CpuState { ime: true, ..s }, Next::Done),
        (Op::Halt, OpArg::Non, OpArg::Non) => (CpuState { halted: true, ..s }, Next::Done),
        (Op::Inc, OpArg::Reg16(d), OpArg::Non) => (
            with_regs(s, r.set16(d, r.get16(d).wrapping_add(1))),
            Next::Done,
        ),
        (Op::Inc, OpArg::Reg8(d), OpArg::Non) => alu_into(s, d, inc8(r, r.get8(d))),
        (Op::Internal, OpArg::Non, OpArg::Non) => (s, Next::Done),
        (Op::Jp, OpArg::CC(c), OpArg::U16(a)) => if condition_holds(r, c) {
            (with_regs(s, r.set16(R16::PC, a.0)), Next::Then(one(internal())))
        } else {
            (s, Next::Done)
        },
        (Op::Jp, OpArg::Reg16(x), OpArg::Non) => (
            with_regs(s, r.set16(R16::PC, r.get16(x))),
            Next::Done,
        ),
        (Op::Jp, OpArg::U16(a), OpArg::Non) => (
            with_regs(s, r.set16(R16::PC, a.0)),
            Next::Then(one(internal())),
        ),
        (Op::Jr, OpArg::CC(c), OpArg::I8(e)) => if condition_holds(r, c) {
            (s, Next::Then(jr_chain(r, e)))
        } else {
            (s, Next::Done)
        },
        (Op::Jr, OpArg::I8(e), OpArg::Non) => (s, Next::Then(jr_chain(r, e))),
        (Op::Ld, OpArg::AddrReg16(x), OpArg::U8(v)) => (s, Next::Then(store(r.get16(x), v.0))),
        (Op::Ld, OpArg::AddrU16(a), OpArg::Reg16(x)) => (
            s,
            Next::Then(
                seq![
                    (Op::Ld, OpArg::AddrU16(a), OpArg::U8(HexU8((r.get16(x) % 256) as u8))),
                    (Op::Ld, OpArg::AddrU16(HexU16(a.0.wrapping_add(1))), OpArg::U8(
                        HexU8((r.get16(x) / 256) as u8),
                    )),
                ],
            ),
        ),
        (Op::Ld, OpArg::AddrU16(a), OpArg::Reg8(x)) => (
            s,
            Next::Then(one((Op::Write, OpArg::AddrU16(a), OpArg::U8(HexU8(r.get8(x)))))),
        ),
        (Op::Ld, OpArg::Reg16(d), OpArg::SPI8(e)) => (
            with_regs(s, ld_sp_e(r, d, e)),
            Next::Then(one(internal())),
        ),
        (Op::Ld, OpArg::Reg16(d), OpArg::U16(v)) => (with_regs(s, r.set16(d, v.0)), Next::Done),
        (Op::Ld, OpArg::Reg16(d), OpArg::Reg16(x)) => (
            with_regs(s, r.set16(d, r.get16(x))),
            Next::Done,
        ),
        (Op::Ld, OpArg::Reg8(d), OpArg::AddrU16(a)) => (
            s,
            Next::Then(one((Op::Read, OpArg::Reg8(d), OpArg::AddrU16(a)))),
        ),
        (Op::Ld, OpArg::Reg8(d), OpArg::U8(v)) => (with_regs(s, r.set8(d, v.0)), Next::Done),
        (Op::Ld, OpArg::Reg8(d), OpArg::Reg8(x)) => (
            with_regs(s, r.set8(d, r.get8(x))),
            Next::Done,
        ),
        (Op::Nop, OpArg::Non, OpArg::Non) => (s, Next::Done),
        (Op::Or, OpArg::Reg8(d), OpArg::U8(v)) => alu_into(s, d, or8(r, r.get8(d), v.0)),
        (Op::Or, OpArg::Reg8(d), OpArg::Reg8(x)) => alu_into(s, d, or8(r, r.get8(d), r.get8(x))),
        (Op::Res, OpArg::U8(b), OpArg::Reg8(x)) => (
            with_regs(s, r.set8(x, res_bit(b.0, r.get8(x)))),
            Next::Done,
        ),
        (Op::Ret, OpArg::CC(c), OpArg::Non) => if condition_holds(r, c) {
            (s, Next::Then(ret_chain()))
        } else {
            (s, Next::Done)
        },
        (Op::Rl, OpArg::Reg8(d), OpArg::Non) => alu_into(s, d, rl8(r, r.get8(d))),
        (Op::Rla, OpArg::Non, OpArg::Non) => {
            let a = r.get8(R8::A);
            (
                with_regs(s, flags4(r, false, false, false, a & 0x80 == 0x80).set8(R8::A, rl8(r, a).0)),
                Next::Done,
            )
        },
        (Op::Rlc, OpArg::Reg8(d), OpArg::Non) => alu_into(s, d, rlc8(r, r.get8(d))),
        (Op::Rlca, OpArg::Non, OpArg::Non) => {
            let a = r.get8(R8::A);
            (
                with_regs(s, flags4(r.set8(R8::A, rlc8(r, a).0), false, false, false, (a >> 7u8) & 1 == 1)),
                Next::Done,
            )
        },
        (Op::Rr, OpArg::Reg8(d), OpArg::Non) => alu_into(s, d, rr8(r, r.get8(d))),
        (Op::Rra, OpArg::Non, OpArg::Non) => {
            let a = r.get8(R8::A);
            (
                with_regs(s, flags4(r, false, false, false, a & 1 == 1).set8(R8::A, rr8(r, a).0)),
                Next::Done,
            )
        },
        (Op::Rrc, OpArg::Reg8(d), OpArg::Non) => alu_into(s, d, rrc8(r, r.get8(d))),
        (Op::Rrca, OpArg::Non, OpArg::Non) => {
            let a = r.get8(R8::A);
            (
                with_regs(s, flags4(r, false, false, false, a & 1 == 1).set8(R8::A, rrc8(r, a).0)),
                Next::Done,
            )
        },
        (Op::Rst, OpArg::U16(a), OpArg::Non) => (
            with_regs(s, r.set16(R16::PC, a.0)),
            Next::Then(push(r.get16(R16::PC))),
        ),
        (Op::Sbc, OpArg::Reg8(d), OpArg::U8(v)) => alu_into(s, d, sbc8(r, r.get8(d), v.0)),
        (Op::Sbc, OpArg::Reg8(d), OpArg::Reg8(x)) => alu_into(s, d, sbc8(r, r.get8(d), r.get8(x))),
        (Op::Scf, OpArg::Non, OpArg::Non) => (
            with_regs(
                s,
                r.set_flag(FFlag::N, false).set_flag(FFlag::H, false).set_flag(FFlag::C, true),
            ),
            Next::Done,
        ),
        (Op::SetBit, OpArg::U8(b), OpArg::Reg8(x)) => (
            with_regs(s, r.set8(x, set_bit(b.0, r.get8(x)))),
            Next::Done,
        ),
        (Op::Sla, OpArg::Reg8(d), OpArg::Non) => alu_into(s, d, sla8(r, r.get8(d))),
        (Op::Sra, OpArg::Reg8(d), OpArg::Non) => alu_into(s, d, sra8(r, r.get8(d))),
        (Op::Srl, OpArg::Reg8(d), OpArg::Non) => alu_into(s, d, srl8(r, r.get8(d))),
        (Op::Sub, OpArg::Reg8(d), OpArg::U8(v)) => alu_into(s, d, sub8(r, r.get8(d), v.0)),
        (Op::Sub, OpArg::Reg8(d), OpArg::Reg8(x)) => alu_into(s, d, sub8(r, r.get8(d), r.get8(x))),
        (Op::Swap, OpArg::Reg8(d), OpArg::Non) => alu_into(s, d, swap8(r, r.get8(d))),
        (Op::Xor, OpArg::Reg8(d), OpArg::U8(v)) => alu_into(s, d, xor8(r, r.get8(d), v.0)),
        (Op::Xor, OpArg::Reg8(d), OpArg::Reg8(x)) => alu_into(s, d, xor8(r, r.get8(d), r.get8(x))),
        _ => (s, Next::Unknown(ins)),
    }
}

/// A relative jump: one cycle that loads PC with the target.
pub open spec fn jr_chain(r: RegisterFile, e: i8) -> Seq<Ins> {
    one((Op::Ld, OpArg::Reg16(R16::PC), OpArg::U16(HexU16(jr_target(r.get16(R16::PC), e)))))
}

pub open spec fn lift(out: (CpuState, Next)) -> Effect {
    Effect { cpu: out.0, write: None, next: out.1 }
}

/// An ALU result from a byte of memory, stored into `dst`.
pub open spec fn alu_mem(s: CpuState, dst: R8, out: (u8, RegisterFile)) -> Effect {
    lift(alu_into(s, dst, out))
}

/// A byte of memory transformed and written back.
pub open spec fn rmw(s: CpuState, address: u16, out: (u8, RegisterFile)) -> Effect {
    Effect { cpu: with_regs(s, out.1), write: None, next: Next::Then(store(address, out.0)) }
}

pub open spec fn write(s: CpuState, r: RegisterFile, address: u16, v: u8) -> Effect {
    Effect { cpu: with_regs(s, r), write: Some((address, v)), next: Next::Done }
}

pub open spec fn load(s: CpuState, r: RegisterFile, dst: R8, v: u8) -> Effect {
    Effect { cpu: with_regs(s, r.set8(dst, v)), write: None, next: Next::Done }
}

/// What a micro-operation other than decoding does, with memory `m`.
pub open spec fn plain_effect(s: CpuState, m: MmuState, ins: Ins) -> Effect {
    let r = s.registers;
    match ins {
        (Op::Adc, OpArg::Reg8(d), OpArg::AddrReg16(x)) => alu_mem(
            s,
            d,
            adc8(r, r.get8(d), m.read(r.get16(x) as int)),
        ),
        (Op::Add, OpArg::Reg8(d), OpArg::AddrReg16(x)) => alu_mem(
            s,
            d,
            add8(r, r.get8(d), m.read(r.get16(x) as int)),
        ),
        (Op::And, OpArg::Reg8(d), OpArg::AddrReg16(x)) => alu_mem(
            s,
            d,
            and8(r, r.get8(d), m.read(r.get16(x) as int)),
        ),
        (Op::Bit, OpArg::U8(b), OpArg::AddrReg16(x)) => lift(
            (with_regs(s, bit8(r, b.0, m.read(r.get16(x) as int))), Next::Done),
        ),
        (Op::Cp, OpArg::Reg8(d), OpArg::AddrReg16(x)) => lift(
            (with_regs(s, sub8(r, r.get8(d), m.read(r.get16(x) as int)).1), Next::Done),
        ),
        (Op::Dec, OpArg::AddrReg16(x), OpArg::Non) => rmw(
            s,
            r.get16(x),
            dec8(r, m.read(r.get16(x) as int)),
        ),
        (Op::Inc, OpArg::AddrReg16(x), OpArg::Non) => rmw(
            s,
            r.get16(x),
            inc8(r, m.read(r.get16(x) as int)),
        ),
        (Op::Ld, OpArg::AddrReg16(x), OpArg::Reg8(v)) => write(s, r, r.get16(x), r.get8(v)),
        (Op::Ld, OpArg::AddrReg16d(x), OpArg::Reg8(v)) => {
            let r1 = r.set16(x, r.get16(x).wrapping_sub(1));
            write(s, r1, r.get16(x), r1.get8(v))
        },
        (Op::Ld, OpArg::AddrReg16i(x), OpArg::Reg8(v)) => {
            let r1 = r.set16(x, r.get16(x).wrapping_add(1));
            write(s, r1, r.get16(x), r1.get8(v))
        },
        (Op::Ld, OpArg::AddrRegd16(x), OpArg::Reg8(v)) => {
            let address = r.get16(x).wrapping_sub(1);
            let r1 = r.set16(x, address);
            write(s, r1, address, r1.get8(v))
        },
        (Op::Ld, OpArg::AddrRegd16(x), OpArg::U8(v)) => {
            let address = r.get16(x).wrapping_sub(1);
            write(s, r.set16(x, address), address, v.0)
        },
        (Op::Ld, OpArg::AddrU16(a), OpArg::U8(v)) => write(s, r, a.0, v.0),
        (Op::Ld, OpArg::InAddrReg8(x), OpArg::Reg8(v)) => write(
            s,
            r,
            (0xFF00 + r.get8(x)) as u16,
            r.get8(v),
        ),
        (Op::Ld, OpArg::InAddrU8(a), OpArg::Reg8(v)) => write(
            s,
            r,
            (0xFF00 + a.0) as u16,
            r.get8(v),
        ),
        (Op::Ld, OpArg::Reg8(d), OpArg::AddrReg16(x)) => load(s, r, d, m.read(r.get16(x) as int)),
        (Op::Ld, OpArg::Reg8(d), OpArg::AddrReg16d(x)) => load(
            s,
            r.set16(x, r.get16(x).wrapping_sub(1)),
            d,
            m.read(r.get16(x) as int),
        ),
        (Op::Ld, OpArg::Reg8(d), OpArg::AddrReg16i(x)) => load(
            s,
            r.set16(x, r.get16(x).wrapping_add(1)),
            d,
            m.read(r.get16(x) as int),
        ),
        (Op::Ld, OpArg::Reg8(d), OpArg::InAddrU8(a)) => load(s, r, d, m.read(0xFF00 + a.0)),
        (Op::Ld, OpArg::Reg8(d), OpArg::InAddrReg8(x)) => load(s, r, d, m.read(0xFF00 + r.get8(x))),
        (Op::Or, OpArg::Reg8(d), OpArg::AddrReg16(x)) => alu_mem(
            s,
            d,
            or8(r, r.get8(d), m.read(r.get16(x) as int)),
        ),
        (Op::Read, OpArg::Reg8(d), OpArg::AddrU16(a)) => load(s, r, d, m.read(a.0 as int)),
        (Op::Res, OpArg::U8(b), OpArg::AddrReg16(x)) => lift(
            (
                s,
                Next::Then(
                    one(
                        (Op::Write, OpArg::AddrU16(HexU16(r.get16(x))), OpArg::U8(
                            HexU8(res_bit(b.0, m.read(r.get16(x) as int))),
                        )),
                    ),
                ),
            ),
        ),
        (Op::Rl, OpArg::AddrReg16(x), OpArg::Non) => rmw(s, r.get16(x), rl8(r, m.read(r.get16(x) as int))),
        (Op::Rlc, OpArg::AddrReg16(x), OpArg::Non) => rmw(s, r.get16(x), rlc8(r, m.read(r.get16(x) as int))),
        (Op::Rr, OpArg::AddrReg16(x), OpArg::Non) => rmw(s, r.get16(x), rr8(r, m.read(r.get16(x) as int))),
        (Op::Rrc, OpArg::AddrReg16(x), OpArg::Non) => rmw(s, r.get16(x), rrc8(r, m.read(r.get16(x) as int))),
        (Op::Sbc, OpArg::Reg8(d), OpArg::AddrReg16(x)) => alu_mem(
            s,
            d,
            sbc8(r, r.get8(d), m.read(r.get16(x) as int)),
        ),
        (Op::SetBit, OpArg::U8(b), OpArg::AddrReg16(x)) => lift(
            (
                s,
                Next::Then(
                    one(
                        (Op::Write, OpArg::AddrU16(HexU16(r.get16(x))), OpArg::U8(
                            HexU8(set_bit(b.0, m.read(r.get16(x) as int))),
                        )),
                    ),
                ),
            ),
        ),
        (Op::Sla, OpArg::AddrReg16(x), OpArg::Non) => rmw(s, r.get16(x), sla8(r, m.read(r.get16(x) as int))),
        (Op::Sra, OpArg::AddrReg16(x), OpArg::Non) => rmw(s, r.get16(x), sra8(r, m.read(r.get16(x) as int))),
        (Op::Srl, OpArg::AddrReg16(x), OpArg::Non) => rmw(s, r.get16(x), srl8(r, m.read(r.get16(x) as int))),
        (Op::Sub, OpArg::Reg8(d), OpArg::AddrReg16(x)) => alu_mem(
            s,
            d,
            sub8(r, r.get8(d), m.read(r.get16(x) as int)),
        ),
        (Op::Swap, OpArg::AddrReg16(x), OpArg::Non) => rmw(s, r.get16(x), swap8(r, m.read(r.get16(x) as int))),
        (Op::Write, OpArg::AddrU16(a), OpArg::U8(v)) => write(s, r, a.0, v.0),
        (Op::Xor, OpArg::Reg8(d), OpArg::AddrReg16(x)) => alu_mem(
            s,
            d,
            xor8(r, r.get8(d), m.read(r.get16(x) as int)),
        ),
        _ => lift(reg_effect(s, ins)),
    }
}

/// What decoding an opcode does: an opcode that runs at once runs its single
/// micro-operation in the same cycle; others hand their chain on.
pub open spec fn decode_effect(s: CpuState, m: MmuState, entry: (bool, Seq<Ins>)) -> Effect {
    if entry.0 {
        plain_effect(s, m, entry.1[0])
    } else {
        Effect { cpu: s, write: None, next: Next::Then(entry.1) }
    }
}

/// What a micro-operation does, with memory `m`.
#[verifier::opaque]
pub open spec fn effect(s: CpuState, m: MmuState, ins: Ins) -> Effect {
    match ins {
        (Op::Dcd, OpArg::U8(b), OpArg::Non) => match base_opcode(b.0) {
            Some(entry) => decode_effect(s, m, entry),
            None => Effect { cpu: s, write: None, next: Next::BadOpcode(b.0) },
        },
        (Op::DcdCB, OpArg::U8(b), OpArg::Non) => decode_effect(s, m, cb_opcode(b.0)),
        _ => plain_effect(s, m, ins),
    }
}

/// `new_c` is what `ins`, a micro-operation that does not touch memory, makes
/// of `old_c`, and `r` is what the executor hands back.
pub open spec fn reg_performs(old_c: CpuState, ins: Ins, new_c: CpuState, r: Result<Option<Instruction>, String>) -> bool {
    let (c, n) = reg_effect(old_c, ins);
    &&& new_c == c
    &&& result_is(r, n)
}

/// An ALU step: `r` is the result and `new_c` holds the flags it set.
pub open spec fn alu_step(old_c: CpuState, out: (u8, RegisterFile), new_c: CpuState, r: u8) -> bool {
    &&& r == out.0
    &&& new_c == with_regs(old_c, out.1)
}

/// `new_c` and `new_m` are what `ins` makes of `old_c` and `old_m`, and `r`
/// is what the executor hands back.
pub open spec fn performs(
    old_c: CpuState,
    old_m: MmuState,
    ins: Ins,
    new_c: CpuState,
    new_m: MmuState,
    r: Result<Option<Instruction>, String>,
) -> bool {
    let e = effect(old_c, old_m, ins);
    &&& new_c == e.cpu
    &&& match e.write {
        None => new_m == old_m,
        Some((a, v)) => old_m.written(a as int, v, new_m),
    }
    &&& result_is(r, e.next)
}

} // verus!
