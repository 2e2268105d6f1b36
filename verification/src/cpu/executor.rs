use vstd::prelude::*;
use crate::cpu::condition::Condition;
use crate::cpu::fflag::FFlag;
use crate::cpu::hex_u16::HexU16;
use crate::cpu::hex_u8::HexU8;
use crate::cpu::instruction::{Ins, Instruction, opt_chain};
use crate::cpu::op::Op;
use crate::cpu::op_arg::OpArg;
use crate::cpu::decoder::decoded_as;
use crate::cpu::opcodes::{base_opcode, cb_opcode};
use crate::cpu::registers::{R16, R8};
use crate::cpu::semantics::{
    Effect, Next, effect, add8, adc8, alu_step, and8, bit8, dec8, inc8, internal, one, or8, performs, push,
    reg_performs, res_bit, rl8, rlc8, rr8, rrc8, sbc8, set_bit, sla8, sra8, srl8, sub8, swap8,
    with_regs, xor8, condition_holds,
};
use crate::cpu::trace::{unknown_instruction, unknown_instruction_text};
use crate::cpu::CPU;
use crate::mmu::{MMU, MmuState};

verus! {

broadcast use crate::bits::group_bits;

/// What running a micro-operation hands back: nothing (the chain goes on),
/// the micro-operations to run next, or the message of a fault.
pub type ExecResult = Result<Option<Instruction>, String>;

fn single(ins: Ins) -> (r: Instruction)
    ensures
        r.chain() == one(ins),
{
    let r = Instruction::new(ins, None);
    assert(r.chain() =~= one(ins));
    r
}

fn pair(a: Ins, b: Ins) -> (r: Instruction)
    ensures
        r.chain() == seq![a, b],
{
    let r = Instruction::new(a, Some(Box::new(single(b))));
    assert(r.chain() =~= seq![a, b]);
    r
}

fn triple(a: Ins, b: Ins, c: Ins) -> (r: Instruction)
    ensures
        r.chain() == seq![a, b, c],
{
    let r = Instruction::new(a, Some(Box::new(pair(b, c))));
    assert(r.chain() =~= seq![a, b, c]);
    r
}

impl CPU {
    fn exe_add(&mut self, a: u8, b: u8) -> (r: u8)
        ensures
            alu_step(old(self)@, add8(old(self)@.registers, a, b), final(self)@, r),
    {
        let res: u16 = a as u16 + b as u16;
        self.registers.set_f(FFlag::Z, res & 0xFF == 0);
        self.registers.set_f(FFlag::N, false);
        self.registers.set_f(FFlag::H, (a & 0x0F) + (b & 0x0F) > 0x0F);
        self.registers.set_f(FFlag::C, res & 0xFF00 != 0);
        (res & 0xff) as u8
    }

    fn exe_adc(&mut self, a: u8, b: u8) -> (r: u8)
        ensures
            alu_step(old(self)@, adc8(old(self)@.registers, a, b), final(self)@, r),
    {
        let carry: u16 = if self.registers.get_f(FFlag::C) {
            1
        } else {
            0
        };
        let res: u16 = (a as u16).wrapping_add(b as u16).wrapping_add(carry);
        self.registers.set_f(FFlag::Z, res & 0xFF == 0);
        self.registers.set_f(FFlag::N, false);
        self.registers.set_f(FFlag::H, ((a & 0x0F) as u16) + ((b & 0x0F) as u16) + carry > 0x0F);
        self.registers.set_f(FFlag::C, res & 0xFF00 != 0);
        (res & 0xff) as u8
    }

    fn exe_sub(&mut self, a: u8, b: u8) -> (r: u8)
        ensures
            alu_step(old(self)@, sub8(old(self)@.registers, a, b), final(self)@, r),
    {
        let res = a.wrapping_sub(b);
        let overflow = a < b;
        self.registers.set_f(FFlag::Z, res == 0);
        self.registers.set_f(FFlag::N, true);
        self.registers.set_f(FFlag::H, (a & 0x0F) < (b & 0x0F));
        self.registers.set_f(FFlag::C, overflow);
        res
    }

    fn exe_sbc(&mut self, a: u8, b: u8) -> (r: u8)
        ensures
            alu_step(old(self)@, sbc8(old(self)@.registers, a, b), final(self)@, r),
    {
        let carry: u16 = if self.registers.get_f(FFlag::C) {
            1
        } else {
            0
        };
        let res = (a as u16).wrapping_sub(b as u16).wrapping_sub(carry);
        let half = ((a & 0x0F) as u16).wrapping_sub((b & 0x0F) as u16).wrapping_sub(carry);
        self.registers.set_f(FFlag::Z, res & 0xFF == 0);
        self.registers.set_f(FFlag::N, true);
        self.registers.set_f(FFlag::H, half > 0x0F);
        self.registers.set_f(FFlag::C, res & 0xFF00 != 0);
        (res & 0xFF) as u8
    }

    fn exe_and(&mut self, a: u8, b: u8) -> (r: u8)
        ensures
            alu_step(old(self)@, and8(old(self)@.registers, a, b), final(self)@, r),
    {
        let res = a & b;
        self.registers.set_f(FFlag::Z, res == 0);
        self.registers.set_f(FFlag::N, false);
        self.registers.set_f(FFlag::H, true);
        self.registers.set_f(FFlag::C, false);
        res
    }

    fn exe_or(&mut self, a: u8, b: u8) -> (r: u8)
        ensures
            alu_step(old(self)@, or8(old(self)@.registers, a, b), final(self)@, r),
    {
        let res = a | b;
        self.registers.set_f(FFlag::Z, res == 0);
        self.registers.set_f(FFlag::N, false);
        self.registers.set_f(FFlag::H, false);
        self.registers.set_f(FFlag::C, false);
        res
    }

    fn exe_xor(&mut self, a: u8, b: u8) -> (r: u8)
        ensures
            alu_step(old(self)@, xor8(old(self)@.registers, a, b), final(self)@, r),
    {
        let res = a ^ b;
        self.registers.set_f(FFlag::Z, res == 0);
        self.registers.set_f(FFlag::N, false);
        self.registers.set_f(FFlag::H, false);
        self.registers.set_f(FFlag::C, false);
        res
    }

    fn exe_cp(&mut self, a: u8, b: u8)
        ensures
            final(self)@ == with_regs(old(self)@, sub8(old(self)@.registers, a, b).1),
    {
        self.exe_sub(a, b);
    }

    fn exe_inc(&mut self, v: u8) -> (r: u8)
        ensures
            alu_step(old(self)@, inc8(old(self)@.registers, v), final(self)@, r),
    {
        let res = v.wrapping_add(1);
        self.registers.set_f(FFlag::Z, res == 0);
        self.registers.set_f(FFlag::N, false);
        self.registers.set_f(FFlag::H, (v & 0x0F) + 1 > 0x0F);
        res
    }

    fn exe_dec_u8(&mut self, v: u8) -> (r: u8)
        ensures
            alu_step(old(self)@, dec8(old(self)@.registers, v), final(self)@, r),
    {
        let res = v.wrapping_sub(1);
        self.registers.set_f(FFlag::Z, res == 0);
        self.registers.set_f(FFlag::N, true);
        self.registers.set_f(FFlag::H, (v & 0x0F) == 0);
        res
    }

    fn exe_rl(&mut self, v: u8) -> (r: u8)
        ensures
            alu_step(old(self)@, rl8(old(self)@.registers, v), final(self)@, r),
    {
        let res = (v << 1u8) | if self.registers.get_f(FFlag::C) {
            1u8
        } else {
            0u8
        };
        self.registers.set_f(FFlag::Z, res == 0);
        self.registers.set_f(FFlag::N, false);
        self.registers.set_f(FFlag::H, false);
        self.registers.set_f(FFlag::C, v & 0x80 == 0x80);
        res
    }

    fn exe_rlc(&mut self, v: u8) -> (r: u8)
        ensures
            alu_step(old(self)@, rlc8(old(self)@.registers, v), final(self)@, r),
    {
        let carry = (v >> 7u8) & 1;
        let res = (v << 1u8) | carry;
        self.registers.set_f(FFlag::Z, res == 0);
        self.registers.set_f(FFlag::N, false);
        self.registers.set_f(FFlag::H, false);
        self.registers.set_f(FFlag::C, carry == 1);
        res
    }

    fn exe_rr(&mut self, v: u8) -> (r: u8)
        ensures
            alu_step(old(self)@, rr8(old(self)@.registers, v), final(self)@, r),
    {
        let res = (v >> 1u8) | if self.registers.get_f(FFlag::C) {
            0x80u8
        } else {
            0u8
        };
        self.registers.set_f(FFlag::Z, res == 0);
        self.registers.set_f(FFlag::N, false);
        self.registers.set_f(FFlag::H, false);
        self.registers.set_f(FFlag::C, v & 1 == 1);
        res
    }

    fn exe_rrc(&mut self, v: u8) -> (r: u8)
        ensures
            alu_step(old(self)@, rrc8(old(self)@.registers, v), final(self)@, r),
    {
        let carry = v & 1;
        let res = (v >> 1u8) | (carry << 7u8);
        self.registers.set_f(FFlag::Z, res == 0);
        self.registers.set_f(FFlag::N, false);
        self.registers.set_f(FFlag::H, false);
        self.registers.set_f(FFlag::C, carry == 1);
        res
    }

    fn exe_sla(&mut self, v: u8) -> (r: u8)
        ensures
            alu_step(old(self)@, sla8(old(self)@.registers, v), final(self)@, r),
    {
        let carry = (v >> 7u8) & 1;
        let res = v << 1u8;
        self.registers.set_f(FFlag::Z, res == 0);
        self.registers.set_f(FFlag::N, false);
        self.registers.set_f(FFlag::H, false);
        self.registers.set_f(FFlag::C, carry == 1);
        res
    }

    fn exe_sra(&mut self, v: u8) -> (r: u8)
        ensures
            alu_step(old(self)@, sra8(old(self)@.registers, v), final(self)@, r),
    {
        let res = (v >> 1u8) | (v & 0x80);
        self.registers.set_f(FFlag::Z, res == 0);
        self.registers.set_f(FFlag::N, false);
        self.registers.set_f(FFlag::H, false);
        self.registers.set_f(FFlag::C, v & 1 == 1);
        res
    }

    fn exe_srl(&mut self, v: u8) -> (r: u8)
        ensures
            alu_step(old(self)@, srl8(old(self)@.registers, v), final(self)@, r),
    {
        let res = v >> 1u8;
        self.registers.set_f(FFlag::Z, res == 0);
        self.registers.set_f(FFlag::N, false);
        self.registers.set_f(FFlag::H, false);
        self.registers.set_f(FFlag::C, v & 1 == 1);
        res
    }

    fn exe_swap(&mut self, v: u8) -> (r: u8)
        ensures
            alu_step(old(self)@, swap8(old(self)@.registers, v), final(self)@, r),
    {
        let res = ((v >> 4u8) & 0x0F) | ((v & 0x0F) << 4u8);
        self.registers.set_f(FFlag::Z, res == 0);
        self.registers.set_f(FFlag::N, false);
        self.registers.set_f(FFlag::H, false);
        self.registers.set_f(FFlag::C, false);
        res
    }

    fn bit(&mut self, b: u8, v: u8)
        ensures
            final(self)@ == with_regs(old(self)@, bit8(old(self)@.registers, b, v)),
    {
        self.registers.set_f(FFlag::Z, (v >> (b % 8)) & 1 == 0);
        self.registers.set_f(FFlag::N, false);
        self.registers.set_f(FFlag::H, true);
    }

    fn exe_set(&self, b: u8, v: u8) -> (r: u8)
        ensures
            r == set_bit(b, v),
    {
        v | (1u8 << (b % 8))
    }

    fn exe_res(&self, b: u8, v: u8) -> (r: u8)
        ensures
            r == res_bit(b, v),
    {
        v & !(1u8 << (b % 8))
    }

    fn check_cc(&self, c: Condition) -> (r: bool)
        ensures
            r == condition_holds(self@.registers, c),
    {
        match c {
            Condition::NZ => !self.registers.get_f(FFlag::Z),
            Condition::Z => self.registers.get_f(FFlag::Z),
            Condition::NC => !self.registers.get_f(FFlag::C),
            Condition::C => self.registers.get_f(FFlag::C),
        }
    }

    fn exe_adc_r8_u8(&mut self, r8: R8, v: u8, Ghost(m): Ghost<MmuState>) -> (r: ExecResult)
        ensures
            performs(old(self)@, m, (Op::Adc, OpArg::Reg8(r8), OpArg::U8(HexU8(v))), final(self)@, m, r),
            final(self)@.chain == old(self)@.chain,
    {
        proof {
            reveal(effect);
        }
        let r8_val = self.registers.get8(r8);
        let res = self.exe_adc(r8_val, v);
        self.registers.set8(r8, res);
        Ok(None)
    }

    fn exe_adc_r8_r8(&mut self, r81: R8, r82: R8, Ghost(m): Ghost<MmuState>) -> (r: ExecResult)
        ensures
            performs(old(self)@, m, (Op::Adc, OpArg::Reg8(r81), OpArg::Reg8(r82)), final(self)@, m, r),
            final(self)@.chain == old(self)@.chain,
    {
        proof {
            reveal(effect);
        }
        let r81_val = self.registers.get8(r81);
        let r82_val = self.registers.get8(r82);
        let res = self.exe_adc(r81_val, r82_val);
        self.registers.set8(r81, res);
        Ok(None)
    }

    fn exe_adc_r8_addrr16(&mut self, r8: R8, r16: R16, mmu: &MMU) -> (r: ExecResult)
        requires
            mmu@.wf(),
            mmu@.cart is Some,
        ensures
            performs(old(self)@, mmu@, (Op::Adc, OpArg::Reg8(r8), OpArg::AddrReg16(r16)), final(self)@, mmu@, r),
            final(self)@.chain == old(self)@.chain,
    {
        proof {
            reveal(effect);
        }
        let r8_val = self.registers.get8(r8);
        let addrr16_val = mmu.get(self.registers.get16(r16));
        let res = self.exe_adc(r8_val, addrr16_val);
        self.registers.set8(r8, res);
        Ok(None)
    }

    fn exe_add_r8_u8(&mut self, r8: R8, v: u8, Ghost(m): Ghost<MmuState>) -> (r: ExecResult)
        ensures
            performs(old(self)@, m, (Op::Add, OpArg::Reg8(r8), OpArg::U8(HexU8(v))), final(self)@, m, r),
            final(self)@.chain == old(self)@.chain,
    {
        proof {
            reveal(effect);
        }
        let r8_val = self.registers.get8(r8);
        let res = self.exe_add(r8_val, v);
        self.registers.set8(r8, res);
        Ok(None)
    }

    fn exe_add_r8_r8(&mut self, r81: R8, r82: R8, Ghost(m): Ghost<MmuState>) -> (r: ExecResult)
        ensures
            performs(old(self)@, m, (Op::Add, OpArg::Reg8(r81), OpArg::Reg8(r82)), final(self)@, m, r),
            final(self)@.chain == old(self)@.chain,
    {
        proof {
            reveal(effect);
        }
        let r81_val = self.registers.get8(r81);
        let r82_val = self.registers.get8(r82);
        let res = self.exe_add(r81_val, r82_val);
        self.registers.set8(r81, res);
        Ok(None)
    }

    fn exe_add_r8_addrr16(&mut self, r8: R8, r16: R16, mmu: &MMU) -> (r: ExecResult)
        requires
            mmu@.wf(),
            mmu@.cart is Some,
        ensures
            performs(old(self)@, mmu@, (Op::Add, OpArg::Reg8(r8), OpArg::AddrReg16(r16)), final(self)@, mmu@, r),
            final(self)@.chain == old(self)@.chain,
    {
        proof {
            reveal(effect);
        }
        let r8_val = self.registers.get8(r8);
        let addrr16_val = mmu.get(self.registers.get16(r16));
        let res = self.exe_add(r8_val, addrr16_val);
        self.registers.set8(r8, res);
        Ok(None)
    }

    fn exe_and_r8_u8(&mut self, r8: R8, v: u8, Ghost(m): Ghost<MmuState>) -> (r: ExecResult)
        ensures
            performs(old(self)@, m, (Op::And, OpArg::Reg8(r8), OpArg::U8(HexU8(v))), final(self)@, m, r),
            final(self)@.chain == old(self)@.chain,
    {
        proof {
            reveal(effect);
        }
        let r8_val = self.registers.get8(r8);
        let res = self.exe_and(r8_val, v);
        self.registers.set8(r8, res);
        Ok(None)
    }

    fn exe_and_r8_r8(&mut self, r81: R8, r82: R8, Ghost(m): Ghost<MmuState>) -> (r: ExecResult)
        ensures
            performs(old(self)@, m, (Op::And, OpArg::Reg8(r81), OpArg::Reg8(r82)), final(self)@, m, r),
            final(self)@.chain == old(self)@.chain,
    {
        proof {
            reveal(effect);
        }
        let r81_val = self.registers.get8(r81);
        let r82_val = self.registers.get8(r82);
        let res = self.exe_and(r81_val, r82_val);
        self.registers.set8(r81, res);
        Ok(None)
    }

    fn exe_and_r8_addrr16(&mut self, r8: R8, r16: R16, mmu: &MMU) -> (r: ExecResult)
        requires
            mmu@.wf(),
            mmu@.cart is Some,
        ensures
            performs(old(self)@, mmu@, (Op::And, OpArg::Reg8(r8), OpArg::AddrReg16(r16)), final(self)@, mmu@, r),
            final(self)@.chain == old(self)@.chain,
    {
        proof {
            reveal(effect);
        }
        let r8_val = self.registers.get8(r8);
        let addrr16_val = mmu.get(self.registers.get16(r16));
        let res = self.exe_and(r8_val, addrr16_val);
        self.registers.set8(r8, res);
        Ok(None)
    }

    fn exe_or_r8_u8(&mut self, r8: R8, v: u8, Ghost(m): Ghost<MmuState>) -> (r: ExecResult)
        ensures
            performs(old(self)@, m, (Op::Or, OpArg::Reg8(r8), OpArg::U8(HexU8(v))), final(self)@, m, r),
            final(self)@.chain == old(self)@.chain,
    {
        proof {
            reveal(effect);
        }
        let r8_val = self.registers.get8(r8);
        let res = self.exe_or(r8_val, v);
        self.registers.set8(r8, res);
        Ok(None)
    }

    fn exe_or_r8_r8(&mut self, r81: R8, r82: R8, Ghost(m): Ghost<MmuState>) -> (r: ExecResult)
        ensures
            performs(old(self)@, m, (Op::Or, OpArg::Reg8(r81), OpArg::Reg8(r82)), final(self)@, m, r),
            final(self)@.chain == old(self)@.chain,
    {
        proof {
            reveal(effect);
        }
        let r81_val = self.registers.get8(r81);
        let r82_val = self.registers.get8(r82);
        let res = self.exe_or(r81_val, r82_val);
        self.registers.set8(r81, res);
        Ok(None)
    }

    fn exe_or_r8_addrr16(&mut self, r8: R8, r16: R16, mmu: &MMU) -> (r: ExecResult)
        requires
            mmu@.wf(),
            mmu@.cart is Some,
        ensures
            performs(old(self)@, mmu@, (Op::Or, OpArg::Reg8(r8), OpArg::AddrReg16(r16)), final(self)@, mmu@, r),
            final(self)@.chain == old(self)@.chain,
    {
        proof {
            reveal(effect);
        }
        let r8_val = self.registers.get8(r8);
        let addrr16_val = mmu.get(self.registers.get16(r16));
        let res = self.exe_or(r8_val, addrr16_val);
        self.registers.set8(r8, res);
        Ok(None)
    }

    fn exe_xor_r8_u8(&mut self, r8: R8, v: u8, Ghost(m): Ghost<MmuState>) -> (r: ExecResult)
        ensures
            performs(old(self)@, m, (Op::Xor, OpArg::Reg8(r8), OpArg::U8(HexU8(v))), final(self)@, m, r),
            final(self)@.chain == old(self)@.chain,
    {
        proof {
            reveal(effect);
        }
        let r8_val = self.registers.get8(r8);
        let res = self.exe_xor(r8_val, v);
        self.registers.set8(r8, res);
        Ok(None)
    }

    fn exe_xor_r8_r8(&mut self, r81: R8, r82: R8, Ghost(m): Ghost<MmuState>) -> (r: ExecResult)
        ensures
            performs(old(self)@, m, (Op::Xor, OpArg::Reg8(r81), OpArg::Reg8(r82)), final(self)@, m, r),
            final(self)@.chain == old(self)@.chain,
    {
        proof {
            reveal(effect);
        }
        let r81_val = self.registers.get8(r81);
        let r82_val = self.registers.get8(r82);
        let res = self.exe_xor(r81_val, r82_val);
        self.registers.set8(r81, res);
        Ok(None)
    }

    fn exe_xor_r8_addrr16(&mut self, r8: R8, r16: R16, mmu: &MMU) -> (r: ExecResult)
        requires
            mmu@.wf(),
            mmu@.cart is Some,
        ensures
            performs(old(self)@, mmu@, (Op::Xor, OpArg::Reg8(r8), OpArg::AddrReg16(r16)), final(self)@, mmu@, r),
            final(self)@.chain == old(self)@.chain,
    {
        proof {
            reveal(effect);
        }
        let r8_val = self.registers.get8(r8);
        let addrr16_val = mmu.get(self.registers.get16(r16));
        let res = self.exe_xor(r8_val, addrr16_val);
        self.registers.set8(r8, res);
        Ok(None)
    }

    fn exe_sub_r8_u8(&mut self, r8: R8, v: u8, Ghost(m): Ghost<MmuState>) -> (r: ExecResult)
        ensures
            performs(old(self)@, m, (Op::Sub, OpArg::Reg8(r8), OpArg::U8(HexU8(v))), final(self)@, m, r),
            final(self)@.chain == old(self)@.chain,
    {
        proof {
            reveal(effect);
        }
        let r8_val = self.registers.get8(r8);
        let res = self.exe_sub(r8_val, v);
        self.registers.set8(r8, res);
        Ok(None)
    }

    fn exe_sub_r8_r8(&mut self, r81: R8, r82: R8, Ghost(m): Ghost<MmuState>) -> (r: ExecResult)
        ensures
            performs(old(self)@, m, (Op::Sub, OpArg::Reg8(r81), OpArg::Reg8(r82)), final(self)@, m, r),
            final(self)@.chain == old(self)@.chain,
    {
        proof {
            reveal(effect);
        }
        let r81_val = self.registers.get8(r81);
        let r82_val = self.registers.get8(r82);
        let res = self.exe_sub(r81_val, r82_val);
        self.registers.set8(r81, res);
        Ok(None)
    }

    fn exe_sub_r8_addrr16(&mut self, r8: R8, r16: R16, mmu: &MMU) -> (r: ExecResult)
        requires
            mmu@.wf(),
            mmu@.cart is Some,
        ensures
            performs(old(self)@, mmu@, (Op::Sub, OpArg::Reg8(r8), OpArg::AddrReg16(r16)), final(self)@, mmu@, r),
            final(self)@.chain == old(self)@.chain,
    {
        proof {
            reveal(effect);
        }
        let r8_val = self.registers.get8(r8);
        let addrr16_val = mmu.get(self.registers.get16(r16));
        let res = self.exe_sub(r8_val, addrr16_val);
        self.registers.set8(r8, res);
        Ok(None)
    }

    fn exe_sbc_r8_u8(&mut self, r8: R8, v: u8, Ghost(m): Ghost<MmuState>) -> (r: ExecResult)
        ensures
            performs(old(self)@, m, (Op::Sbc, OpArg::Reg8(r8), OpArg::U8(HexU8(v))), final(self)@, m, r),
            final(self)@.chain == old(self)@.chain,
    {
        proof {
            reveal(effect);
        }
        let r8_val = self.registers.get8(r8);
        let res = self.exe_sbc(r8_val, v);
        self.registers.set8(r8, res);
        Ok(None)
    }

    fn exe_sbc_r8_r8(&mut self, r81: R8, r82: R8, Ghost(m): Ghost<MmuState>) -> (r: ExecResult)
        ensures
            performs(old(self)@, m, (Op::Sbc, OpArg::Reg8(r81), OpArg::Reg8(r82)), final(self)@, m, r),
            final(self)@.chain == old(self)@.chain,
    {
        proof {
            reveal(effect);
        }
        let r81_val = self.registers.get8(r81);
        let r82_val = self.registers.get8(r82);
        let res = self.exe_sbc(r81_val, r82_val);
        self.registers.set8(r81, res);
        Ok(None)
    }

    fn exe_sbc_r8_addrr16(&mut self, r8: R8, r16: R16, mmu: &MMU) -> (r: ExecResult)
        requires
            mmu@.wf(),
            mmu@.cart is Some,
        ensures
            performs(old(self)@, mmu@, (Op::Sbc, OpArg::Reg8(r8), OpArg::AddrReg16(r16)), final(self)@, mmu@, r),
            final(self)@.chain == old(self)@.chain,
    {
        proof {
            reveal(effect);
        }
        let r8_val = self.registers.get8(r8);
        let addrr16_val = mmu.get(self.registers.get16(r16));
        let res = self.exe_sbc(r8_val, addrr16_val);
        self.registers.set8(r8, res);
        Ok(None)
    }

    fn exe_cp_r8_u8(&mut self, r8: R8, v: u8, Ghost(m): Ghost<MmuState>) -> (r: ExecResult)
        ensures
            performs(old(self)@, m, (Op::Cp, OpArg::Reg8(r8), OpArg::U8(HexU8(v))), final(self)@, m, r),
            final(self)@.chain == old(self)@.chain,
    {
        proof {
            reveal(effect);
        }
        let r8_val = self.registers.get8(r8);
        self.exe_cp(r8_val, v);
        Ok(None)
    }

    fn exe_cp_r8_r8(&mut self, r81: R8, r82: R8, Ghost(m): Ghost<MmuState>) -> (r: ExecResult)
        ensures
            performs(old(self)@, m, (Op::Cp, OpArg::Reg8(r81), OpArg::Reg8(r82)), final(self)@, m, r),
            final(self)@.chain == old(self)@.chain,
    {
        proof {
            reveal(effect);
        }
        let r81_val = self.registers.get8(r81);
        let r82_val = self.registers.get8(r82);
        self.exe_cp(r81_val, r82_val);
        Ok(None)
    }

    fn exe_cp_r8_addrr16(&mut self, r8: R8, r16: R16, mmu: &MMU) -> (r: ExecResult)
        requires
            mmu@.wf(),
            mmu@.cart is Some,
        ensures
            performs(old(self)@, mmu@, (Op::Cp, OpArg::Reg8(r8), OpArg::AddrReg16(r16)), final(self)@, mmu@, r),
            final(self)@.chain == old(self)@.chain,
    {
        proof {
            reveal(effect);
        }
        let r8_val = self.registers.get8(r8);
        let addrr16_val = mmu.get(self.registers.get16(r16));
        self.exe_cp(r8_val, addrr16_val);
        Ok(None)
    }

    fn exe_rl_r8(&mut self, r8: R8, Ghost(m): Ghost<MmuState>) -> (r: ExecResult)
        ensures
            performs(old(self)@, m, (Op::Rl, OpArg::Reg8(r8), OpArg::Non), final(self)@, m, r),
            final(self)@.chain == old(self)@.chain,
    {
        proof {
            reveal(effect);
        }
        let r8_val = self.registers.get8(r8);
        let res = self.exe_rl(r8_val);
        self.registers.set8(r8, res);
        Ok(None)
    }

    fn exe_rl_addrr16(&mut self, r16: R16, mmu: &MMU) -> (r: ExecResult)
        requires
            mmu@.wf(),
            mmu@.cart is Some,
        ensures
            performs(old(self)@, mmu@, (Op::Rl, OpArg::AddrReg16(r16), OpArg::Non), final(self)@, mmu@, r),
            final(self)@.chain == old(self)@.chain,
    {
        proof {
            reveal(effect);
        }
        let address = self.registers.get16(r16);
        let res = self.exe_rl(mmu.get(address));
        Ok(Some(single((Op::Ld, OpArg::AddrU16(HexU16(address)), OpArg::U8(HexU8(res))))))
    }

    fn exe_rlc_r8(&mut self, r8: R8, Ghost(m): Ghost<MmuState>) -> (r: ExecResult)
        ensures
            performs(old(self)@, m, (Op::Rlc, OpArg::Reg8(r8), OpArg::Non), final(self)@, m, r),
            final(self)@.chain == old(self)@.chain,
    {
        proof {
            reveal(effect);
        }
        let r8_val = self.registers.get8(r8);
        let res = self.exe_rlc(r8_val);
        self.registers.set8(r8, res);
        Ok(None)
    }

    fn exe_rlc_addrr16(&mut self, r16: R16, mmu: &MMU) -> (r: ExecResult)
        requires
            mmu@.wf(),
            mmu@.cart is Some,
        ensures
            performs(old(self)@, mmu@, (Op::Rlc, OpArg::AddrReg16(r16), OpArg::Non), final(self)@, mmu@, r),
            final(self)@.chain == old(self)@.chain,
    {
        proof {
            reveal(effect);
        }
        let address = self.registers.get16(r16);
        let res = self.exe_rlc(mmu.get(address));
        Ok(Some(single((Op::Ld, OpArg::AddrU16(HexU16(address)), OpArg::U8(HexU8(res))))))
    }

    fn exe_rr_r8(&mut self, r8: R8, Ghost(m): Ghost<MmuState>) -> (r: ExecResult)
        ensures
            performs(old(self)@, m, (Op::Rr, OpArg::Reg8(r8), OpArg::Non), final(self)@, m, r),
            final(self)@.chain == old(self)@.chain,
    {
        proof {
            reveal(effect);
        }
        let r8_val = self.registers.get8(r8);
        let res = self.exe_rr(r8_val);
        self.registers.set8(r8, res);
        Ok(None)
    }

    fn exe_rr_addrr16(&mut self, r16: R16, mmu: &MMU) -> (r: ExecResult)
        requires
            mmu@.wf(),
            mmu@.cart is Some,
        ensures
            performs(old(self)@, mmu@, (Op::Rr, OpArg::AddrReg16(r16), OpArg::Non), final(self)@, mmu@, r),
            final(self)@.chain == old(self)@.chain,
    {
        proof {
            reveal(effect);
        }
        let address = self.registers.get16(r16);
        let res = self.exe_rr(mmu.get(address));
        Ok(Some(single((Op::Ld, OpArg::AddrU16(HexU16(address)), OpArg::U8(HexU8(res))))))
    }

    fn exe_rrc_r8(&mut self, r8: R8, Ghost(m): Ghost<MmuState>) -> (r: ExecResult)
        ensures
            performs(old(self)@, m, (Op::Rrc, OpArg::Reg8(r8), OpArg::Non), final(self)@, m, r),
            final(self)@.chain == old(self)@.chain,
    {
        proof {
            reveal(effect);
        }
        let r8_val = self.registers.get8(r8);
        let res = self.exe_rrc(r8_val);
        self.registers.set8(r8, res);
        Ok(None)
    }

    fn exe_rrc_addrr16(&mut self, r16: R16, mmu: &MMU) -> (r: ExecResult)
        requires
            mmu@.wf(),
            mmu@.cart is Some,
        ensures
            performs(old(self)@, mmu@, (Op::Rrc, OpArg::AddrReg16(r16), OpArg::Non), final(self)@, mmu@, r),
            final(self)@.chain == old(self)@.chain,
    {
        proof {
            reveal(effect);
        }
        let address = self.registers.get16(r16);
        let res = self.exe_rrc(mmu.get(address));
        Ok(Some(single((Op::Ld, OpArg::AddrU16(HexU16(address)), OpArg::U8(HexU8(res))))))
    }

    fn exe_sla_r8(&mut self, r8: R8, Ghost(m): Ghost<MmuState>) -> (r: ExecResult)
        ensures
            performs(old(self)@, m, (Op::Sla, OpArg::Reg8(r8), OpArg::Non), final(self)@, m, r),
            final(self)@.chain == old(self)@.chain,
    {
        proof {
            reveal(effect);
        }
        let r8_val = self.registers.get8(r8);
        let res = self.exe_sla(r8_val);
        self.registers.set8(r8, res);
        Ok(None)
    }

    fn exe_sla_addrr16(&mut self, r16: R16, mmu: &MMU) -> (r: ExecResult)
        requires
            mmu@.wf(),
            mmu@.cart is Some,
        ensures
            performs(old(self)@, mmu@, (Op::Sla, OpArg::AddrReg16(r16), OpArg::Non), final(self)@, mmu@, r),
            final(self)@.chain == old(self)@.chain,
    {
        proof {
            reveal(effect);
        }
        let address = self.registers.get16(r16);
        let res = self.exe_sla(mmu.get(address));
        Ok(Some(single((Op::Ld, OpArg::AddrU16(HexU16(address)), OpArg::U8(HexU8(res))))))
    }

    fn exe_sra_r8(&mut self, r8: R8, Ghost(m): Ghost<MmuState>) -> (r: ExecResult)
        ensures
            performs(old(self)@, m, (Op::Sra, OpArg::Reg8(r8), OpArg::Non), final(self)@, m, r),
            final(self)@.chain == old(self)@.chain,
    {
        proof {
            reveal(effect);
        }
        let r8_val = self.registers.get8(r8);
        let res = self.exe_sra(r8_val);
        self.registers.set8(r8, res);
        Ok(None)
    }

    fn exe_sra_addrr16(&mut self, r16: R16, mmu: &MMU) -> (r: ExecResult)
        requires
            mmu@.wf(),
            mmu@.cart is Some,
        ensures
            performs(old(self)@, mmu@, (Op::Sra, OpArg::AddrReg16(r16), OpArg::Non), final(self)@, mmu@, r),
            final(self)@.chain == old(self)@.chain,
    {
        proof {
            reveal(effect);
        }
        let address = self.registers.get16(r16);
        let res = self.exe_sra(mmu.get(address));
        Ok(Some(single((Op::Ld, OpArg::AddrU16(HexU16(address)), OpArg::U8(HexU8(res))))))
    }

    fn exe_srl_r8(&mut self, r8: R8, Ghost(m): Ghost<MmuState>) -> (r: ExecResult)
        ensures
            performs(old(self)@, m, (Op::Srl, OpArg::Reg8(r8), OpArg::Non), final(self)@, m, r),
            final(self)@.chain == old(self)@.chain,
    {
        proof {
            reveal(effect);
        }
        let r8_val = self.registers.get8(r8);
        let res = self.exe_srl(r8_val);
        self.registers.set8(r8, res);
        Ok(None)
    }

    fn exe_srl_addrr16(&mut self, r16: R16, mmu: &MMU) -> (r: ExecResult)
        requires
            mmu@.wf(),
            mmu@.cart is Some,
        ensures
            performs(old(self)@, mmu@, (Op::Srl, OpArg::AddrReg16(r16), OpArg::Non), final(self)@, mmu@, r),
            final(self)@.chain == old(self)@.chain,
    {
        proof {
            reveal(effect);
        }
        let address = self.registers.get16(r16);
        let res = self.exe_srl(mmu.get(address));
        Ok(Some(single((Op::Ld, OpArg::AddrU16(HexU16(address)), OpArg::U8(HexU8(res))))))
    }

    fn exe_swap_r8(&mut self, r8: R8, Ghost(m): Ghost<MmuState>) -> (r: ExecResult)
        ensures
            performs(old(self)@, m, (Op::Swap, OpArg::Reg8(r8), OpArg::Non), final(self)@, m, r),
            final(self)@.chain == old(self)@.chain,
    {
        proof {
            reveal(effect);
        }
        let r8_val = self.registers.get8(r8);
        let res = self.exe_swap(r8_val);
        self.registers.set8(r8, res);
        Ok(None)
    }

    fn exe_swap_addrr16(&mut self, r16: R16, mmu: &MMU) -> (r: ExecResult)
        requires
            mmu@.wf(),
            mmu@.cart is Some,
        ensures
            performs(old(self)@, mmu@, (Op::Swap, OpArg::AddrReg16(r16), OpArg::Non), final(self)@, mmu@, r),
            final(self)@.chain == old(self)@.chain,
    {
        proof {
            reveal(effect);
        }
        let address = self.registers.get16(r16);
        let res = self.exe_swap(mmu.get(address));
        Ok(Some(single((Op::Ld, OpArg::AddrU16(HexU16(address)), OpArg::U8(HexU8(res))))))
    }

    fn exe_dec_r8(&mut self, r8: R8, Ghost(m): Ghost<MmuState>) -> (r: ExecResult)
        ensures
            performs(old(self)@, m, (Op::Dec, OpArg::Reg8(r8), OpArg::Non), final(self)@, m, r),
            final(self)@.chain == old(self)@.chain,
    {
        proof {
            reveal(effect);
        }
        let r8_val = self.registers.get8(r8);
        let res = self.exe_dec_u8(r8_val);
        self.registers.set8(r8, res);
        Ok(None)
    }

    fn exe_dec_addrr16(&mut self, r16: R16, mmu: &MMU) -> (r: ExecResult)
        requires
            mmu@.wf(),
            mmu@.cart is Some,
        ensures
            performs(old(self)@, mmu@, (Op::Dec, OpArg::AddrReg16(r16), OpArg::Non), final(self)@, mmu@, r),
            final(self)@.chain == old(self)@.chain,
    {
        proof {
            reveal(effect);
        }
        let address = self.registers.get16(r16);
        let res = self.exe_dec_u8(mmu.get(address));
        Ok(Some(single((Op::Ld, OpArg::AddrU16(HexU16(address)), OpArg::U8(HexU8(res))))))
    }

    fn exe_inc_r8(&mut self, r8: R8, Ghost(m): Ghost<MmuState>) -> (r: ExecResult)
        ensures
            performs(old(self)@, m, (Op::Inc, OpArg::Reg8(r8), OpArg::Non), final(self)@, m, r),
            final(self)@.chain == old(self)@.chain,
    {
        proof {
            reveal(effect);
        }
        let r8_val = self.registers.get8(r8);
        let r8_inced = self.exe_inc(r8_val);
        self.registers.set8(r8, r8_inced);
        Ok(None)
    }

    fn exe_inc_addrr16(&mut self, r16: R16, mmu: &MMU) -> (r: ExecResult)
        requires
            mmu@.wf(),
            mmu@.cart is Some,
        ensures
            performs(old(self)@, mmu@, (Op::Inc, OpArg::AddrReg16(r16), OpArg::Non), final(self)@, mmu@, r),
            final(self)@.chain == old(self)@.chain,
    {
        proof {
            reveal(effect);
        }
        let address = self.registers.get16(r16);
        let addrreg16_val = mmu.get(address);
        let res = self.exe_inc(addrreg16_val);
        Ok(Some(single((Op::Ld, OpArg::AddrU16(HexU16(address)), OpArg::U8(HexU8(res))))))
    }

    fn exe_dec_r16(&mut self, r16: R16, Ghost(m): Ghost<MmuState>) -> (r: ExecResult)
        ensures
            performs(old(self)@, m, (Op::Dec, OpArg::Reg16(r16), OpArg::Non), final(self)@, m, r),
            final(self)@.chain == old(self)@.chain,
    {
        proof {
            reveal(effect);
        }
        self.registers.dec16(r16, 1);
        Ok(None)
    }

    fn exe_inc_r16(&mut self, r16: R16, Ghost(m): Ghost<MmuState>) -> (r: ExecResult)
        ensures
            performs(old(self)@, m, (Op::Inc, OpArg::Reg16(r16), OpArg::Non), final(self)@, m, r),
            final(self)@.chain == old(self)@.chain,
    {
        proof {
            reveal(effect);
        }
        self.registers.inc16(r16, 1);
        Ok(None)
    }

    fn exe_bit_u8_r8(&mut self, b: u8, r8: R8, Ghost(m): Ghost<MmuState>) -> (r: ExecResult)
        ensures
            performs(old(self)@, m, (Op::Bit, OpArg::U8(HexU8(b)), OpArg::Reg8(r8)), final(self)@, m, r),
            final(self)@.chain == old(self)@.chain,
    {
        proof {
            reveal(effect);
        }
        let v = self.registers.get8(r8);
        self.bit(b, v);
        Ok(None)
    }

    fn exe_bit_u8_addrr16(&mut self, b: u8, r16: R16, mmu: &MMU) -> (r: ExecResult)
        requires
            mmu@.wf(),
            mmu@.cart is Some,
        ensures
            performs(old(self)@, mmu@, (Op::Bit, OpArg::U8(HexU8(b)), OpArg::AddrReg16(r16)), final(self)@, mmu@, r),
            final(self)@.chain == old(self)@.chain,
    {
        proof {
            reveal(effect);
        }
        let v = mmu.get(self.registers.get16(r16));
        self.bit(b, v);
        Ok(None)
    }

    fn exe_set_u8_r8(&mut self, b: u8, r8: R8, Ghost(m): Ghost<MmuState>) -> (r: ExecResult)
        ensures
            performs(old(self)@, m, (Op::SetBit, OpArg::U8(HexU8(b)), OpArg::Reg8(r8)), final(self)@, m, r),
            final(self)@.chain == old(self)@.chain,
    {
        proof {
            reveal(effect);
        }
        let res = self.exe_set(b, self.registers.get8(r8));
        self.registers.set8(r8, res);
        Ok(None)
    }

    fn exe_set_u8_addrr16(&mut self, b: u8, r16: R16, mmu: &MMU) -> (r: ExecResult)
        requires
            mmu@.wf(),
            mmu@.cart is Some,
        ensures
            performs(old(self)@, mmu@, (Op::SetBit, OpArg::U8(HexU8(b)), OpArg::AddrReg16(r16)), final(self)@, mmu@, r),
            final(self)@.chain == old(self)@.chain,
    {
        proof {
            reveal(effect);
        }
        let address = self.registers.get16(r16);
        let res = self.exe_set(b, mmu.get(self.registers.get16(r16)));
        Ok(Some(single((Op::Write, OpArg::AddrU16(HexU16(address)), OpArg::U8(HexU8(res))))))
    }

    fn exe_res_u8_r8(&mut self, b: u8, r8: R8, Ghost(m): Ghost<MmuState>) -> (r: ExecResult)
        ensures
            performs(old(self)@, m, (Op::Res, OpArg::U8(HexU8(b)), OpArg::Reg8(r8)), final(self)@, m, r),
            final(self)@.chain == old(self)@.chain,
    {
        proof {
            reveal(effect);
        }
        let res = self.exe_res(b, self.registers.get8(r8));
        self.registers.set8(r8, res);
        Ok(None)
    }

    fn exe_res_u8_addrr16(&mut self, b: u8, r16: R16, mmu: &MMU) -> (r: ExecResult)
        requires
            mmu@.wf(),
            mmu@.cart is Some,
        ensures
            performs(old(self)@, mmu@, (Op::Res, OpArg::U8(HexU8(b)), OpArg::AddrReg16(r16)), final(self)@, mmu@, r),
            final(self)@.chain == old(self)@.chain,
    {
        proof {
            reveal(effect);
        }
        let address = self.registers.get16(r16);
        let res = self.exe_res(b, mmu.get(self.registers.get16(r16)));
        Ok(Some(single((Op::Write, OpArg::AddrU16(HexU16(address)), OpArg::U8(HexU8(res))))))
    }

    fn exe_scf(&mut self, Ghost(m): Ghost<MmuState>) -> (r: ExecResult)
        ensures
            performs(old(self)@, m, (Op::Scf, OpArg::Non, OpArg::Non), final(self)@, m, r),
            final(self)@.chain == old(self)@.chain,
    {
        proof {
            reveal(effect);
        }
        self.registers.set_f(FFlag::N, false);
        self.registers.set_f(FFlag::H, false);
        self.registers.set_f(FFlag::C, true);
        Ok(None)
    }

    fn exe_ccf(&mut self, Ghost(m): Ghost<MmuState>) -> (r: ExecResult)
        ensures
            performs(old(self)@, m, (Op::Ccf, OpArg::Non, OpArg::Non), final(self)@, m, r),
            final(self)@.chain == old(self)@.chain,
    {
        proof {
            reveal(effect);
        }
        let c = self.registers.get_f(FFlag::C);
        self.registers.set_f(FFlag::N, false);
        self.registers.set_f(FFlag::H, false);
        self.registers.set_f(FFlag::C, !c);
        Ok(None)
    }

    fn exe_cpl(&mut self, Ghost(m): Ghost<MmuState>) -> (r: ExecResult)
        ensures
            performs(old(self)@, m, (Op::Cpl, OpArg::Non, OpArg::Non), final(self)@, m, r),
            final(self)@.chain == old(self)@.chain,
    {
        proof {
            reveal(effect);
        }
        let a = self.registers.get8(R8::A);
        let a = !a;
        self.registers.set_f(FFlag::N, true);
        self.registers.set_f(FFlag::H, true);
        self.registers.set8(R8::A, a);
        Ok(None)
    }

    fn exe_rra(&mut self, Ghost(m): Ghost<MmuState>) -> (r: ExecResult)
        ensures
            performs(old(self)@, m, (Op::Rra, OpArg::Non, OpArg::Non), final(self)@, m, r),
            final(self)@.chain == old(self)@.chain,
    {
        proof {
            reveal(effect);
        }
        let a = self.registers.get8(R8::A);
        let res = (a >> 1u8) | if self.registers.get_f(FFlag::C) {
            0x80u8
        } else {
            0u8
        };
        self.registers.set_f(FFlag::Z, false);
        self.registers.set_f(FFlag::N, false);
        self.registers.set_f(FFlag::H, false);
        self.registers.set_f(FFlag::C, a & 1 == 1);
        self.registers.set8(R8::A, res);
        Ok(None)
    }

    fn exe_rla(&mut self, Ghost(m): Ghost<MmuState>) -> (r: ExecResult)
        ensures
            performs(old(self)@, m, (Op::Rla, OpArg::Non, OpArg::Non), final(self)@, m, r),
            final(self)@.chain == old(self)@.chain,
    {
        proof {
            reveal(effect);
        }
        let a_val = self.registers.get8(R8::A);
        let res = (a_val << 1u8) | if self.registers.get_f(FFlag::C) {
            1u8
        } else {
            0u8
        };
        self.registers.set_f(FFlag::Z, false);
        self.registers.set_f(FFlag::N, false);
        self.registers.set_f(FFlag::H, false);
        self.registers.set_f(FFlag::C, a_val & 0x80 == 0x80);
        self.registers.set8(R8::A, res);
        Ok(None)
    }

    fn exe_rlca(&mut self, Ghost(m): Ghost<MmuState>) -> (r: ExecResult)
        ensures
            performs(old(self)@, m, (Op::Rlca, OpArg::Non, OpArg::Non), final(self)@, m, r),
            final(self)@.chain == old(self)@.chain,
    {
        proof {
            reveal(effect);
        }
        let a = self.registers.get8(R8::A);
        let carry = (a >> 7u8) & 1;
        self.registers.set8(R8::A, (a << 1u8) | carry);
        self.registers.set_f(FFlag::Z, false);
        self.registers.set_f(FFlag::N, false);
        self.registers.set_f(FFlag::H, false);
        self.registers.set_f(FFlag::C, carry == 1);
        Ok(None)
    }

    fn exe_rrca(&mut self, Ghost(m): Ghost<MmuState>) -> (r: ExecResult)
        ensures
            performs(old(self)@, m, (Op::Rrca, OpArg::Non, OpArg::Non), final(self)@, m, r),
            final(self)@.chain == old(self)@.chain,
    {
        proof {
            reveal(effect);
        }
        let a = self.registers.get8(R8::A);
        let carry = a & 1;
        let res = (a >> 1u8) | (carry << 7u8);
        self.registers.set_f(FFlag::Z, false);
        self.registers.set_f(FFlag::N, false);
        self.registers.set_f(FFlag::H, false);
        self.registers.set_f(FFlag::C, carry == 1);
        self.registers.set8(R8::A, res);
        Ok(None)
    }

    fn exe_daa(&mut self, Ghost(m): Ghost<MmuState>) -> (r: ExecResult)
        ensures
            performs(old(self)@, m, (Op::Daa, OpArg::Non, OpArg::Non), final(self)@, m, r),
            final(self)@.chain == old(self)@.chain,
    {
        proof {
            reveal(effect);
        }
        let a = self.registers.get8(R8::A);
        let carry = self.registers.get_f(FFlag::C);
        let half_carry = self.registers.get_f(FFlag::H);
        let subtraction = self.registers.get_f(FFlag::N);
        if !subtraction {
            let low: u8 = if half_carry || (a & 0xf > 0x9) {
                0x6
            } else {
                0
            };
            let mut correction = low;
            if carry || (a > 0x99) {
                correction = low + 0x60;
                self.registers.set_f(FFlag::C, true);
            }
            self.registers.set8(R8::A, a.wrapping_add(correction));
        } else if carry {
            self.registers.set_f(FFlag::C, true);
            self.registers.set8(R8::A, a.wrapping_add(if half_carry { 0x9a } else { 0xa0 }));
        } else if half_carry {
            self.registers.set8(R8::A, a.wrapping_add(0xFA));
        }
        let z = self.registers.get8(R8::A) == 0;
        self.registers.set_f(FFlag::Z, z);
        self.registers.set_f(FFlag::H, false);
        Ok(None)
    }

    fn exe_di(&mut self, Ghost(m): Ghost<MmuState>) -> (r: ExecResult)
        ensures
            performs(old(self)@, m, (Op::Di, OpArg::Non, OpArg::Non), final(self)@, m, r),
            final(self)@.chain == old(self)@.chain,
    {
        proof {
            reveal(effect);
        }
        self.ime_requested = false;
        self.ime = false;
        Ok(None)
    }

    fn exe_halt(&mut self, Ghost(m): Ghost<MmuState>) -> (r: ExecResult)
        ensures
            performs(old(self)@, m, (Op::Halt, OpArg::Non, OpArg::Non), final(self)@, m, r),
            final(self)@.chain == old(self)@.chain,
    {
        proof {
            reveal(effect);
        }
        self.halted = true;
        Ok(None)
    }

    fn exe_ei(&mut self, Ghost(m): Ghost<MmuState>) -> (r: ExecResult)
        ensures
            performs(old(self)@, m, (Op::Ei, OpArg::Non, OpArg::Non), final(self)@, m, r),
            final(self)@.chain == old(self)@.chain,
    {
        proof {
            reveal(effect);
        }
        self.ime_requested = true;
        Ok(None)
    }

    fn exe_ei_imm(&mut self, Ghost(m): Ghost<MmuState>) -> (r: ExecResult)
        ensures
            performs(old(self)@, m, (Op::EiImm, OpArg::Non, OpArg::Non), final(self)@, m, r),
            final(self)@.chain == old(self)@.chain,
    {
        proof {
            reveal(effect);
        }
        self.ime = true;
        Ok(None)
    }

    fn exe_jp_u16(&mut self, a: u16, Ghost(m): Ghost<MmuState>) -> (r: ExecResult)
        ensures
            performs(old(self)@, m, (Op::Jp, OpArg::U16(HexU16(a)), OpArg::Non), final(self)@, m, r),
            final(self)@.chain == old(self)@.chain,
    {
        proof {
            reveal(effect);
        }
        self.registers.set16(R16::PC, a);
        Ok(Some(single((Op::Internal, OpArg::Non, OpArg::Non))))
    }

    fn exe_jp_c_u16(&mut self, c: Condition, a: u16, Ghost(m): Ghost<MmuState>) -> (r: ExecResult)
        ensures
            performs(old(self)@, m, (Op::Jp, OpArg::CC(c), OpArg::U16(HexU16(a))), final(self)@, m, r),
            final(self)@.chain == old(self)@.chain,
    {
        proof {
            reveal(effect);
        }
        if self.check_cc(c) {
            self.registers.set16(R16::PC, a);
            Ok(Some(single((Op::Internal, OpArg::Non, OpArg::Non))))
        } else {
            Ok(None)
        }
    }

    fn exe_jp_r16(&mut self, r16: R16, Ghost(m): Ghost<MmuState>) -> (r: ExecResult)
        ensures
            performs(old(self)@, m, (Op::Jp, OpArg::Reg16(r16), OpArg::Non), final(self)@, m, r),
            final(self)@.chain == old(self)@.chain,
    {
        proof {
            reveal(effect);
        }
        let v = self.registers.get16(r16);
        self.registers.set16(R16::PC, v);
        Ok(None)
    }

    fn exe_push_u16(&mut self, u8h: u8, u8l: u8) -> (r: ExecResult)
        ensures
            r matches Ok(Some(i)) && i.chain() == seq![(Op::Ld, OpArg::AddrRegd16(R16::SP), OpArg::U8(HexU8(u8h))), (Op::Ld, OpArg::AddrRegd16(R16::SP), OpArg::U8(HexU8(u8l)))],
            final(self)@ == old(self)@,
    {
        Ok(Some(pair((Op::Ld, OpArg::AddrRegd16(R16::SP), OpArg::U8(HexU8(u8h))), (Op::Ld, OpArg::AddrRegd16(R16::SP), OpArg::U8(HexU8(u8l))))))
    }

    fn exe_call_u16(&mut self, a: u16, Ghost(m): Ghost<MmuState>) -> (r: ExecResult)
        ensures
            performs(old(self)@, m, (Op::Call, OpArg::U16(HexU16(a)), OpArg::Non), final(self)@, m, r),
            final(self)@.chain == old(self)@.chain,
    {
        proof {
            reveal(effect);
        }
        let pc = self.registers.get16(R16::PC);
        self.registers.set16(R16::PC, a);
        let hi = (pc / 256) as u8;
        let lo = (pc % 256) as u8;
        let push_ins = pair((Op::Ld, OpArg::AddrRegd16(R16::SP), OpArg::U8(HexU8(hi))), (Op::Ld, OpArg::AddrRegd16(R16::SP), OpArg::U8(HexU8(lo))));
        let r = Instruction::new((Op::Internal, OpArg::Non, OpArg::Non), Some(Box::new(push_ins)));
        assert(r.chain() =~= seq![internal()] + push(pc));
        Ok(Some(r))
    }

    fn exe_rst_u16(&mut self, a: u16, Ghost(m): Ghost<MmuState>) -> (r: ExecResult)
        ensures
            performs(old(self)@, m, (Op::Rst, OpArg::U16(HexU16(a)), OpArg::Non), final(self)@, m, r),
            final(self)@.chain == old(self)@.chain,
    {
        proof {
            reveal(effect);
        }
        let pc = self.registers.get16(R16::PC);
        self.registers.set16(R16::PC, a);
        self.exe_push_u16((pc / 256) as u8, (pc % 256) as u8)
    }

    fn exe_call_c_u16(&mut self, c: Condition, a: u16, Ghost(m): Ghost<MmuState>) -> (r: ExecResult)
        ensures
            performs(old(self)@, m, (Op::Call, OpArg::CC(c), OpArg::U16(HexU16(a))), final(self)@, m, r),
            final(self)@.chain == old(self)@.chain,
    {
        proof {
            reveal(effect);
        }
        if self.check_cc(c) {
            self.exe_call_u16(a, Ghost(m))
        } else {
            Ok(None)
        }
    }

    fn exe_ret_c(&mut self, c: Condition, Ghost(m): Ghost<MmuState>) -> (r: ExecResult)
        ensures
            performs(old(self)@, m, (Op::Ret, OpArg::CC(c), OpArg::Non), final(self)@, m, r),
            final(self)@.chain == old(self)@.chain,
    {
        proof {
            reveal(effect);
        }
        if self.check_cc(c) {
            Ok(Some(triple((Op::Ld, OpArg::Reg8(R8::PCl), OpArg::AddrReg16i(R16::SP)), (Op::Ld, OpArg::Reg8(R8::PCh), OpArg::AddrReg16i(R16::SP)), (Op::Internal, OpArg::Non, OpArg::Non))))
        } else {
            Ok(None)
        }
    }

    fn exe_jr_i8(&mut self, e: i8, Ghost(m): Ghost<MmuState>) -> (r: ExecResult)
        ensures
            performs(old(self)@, m, (Op::Jr, OpArg::I8(e), OpArg::Non), final(self)@, m, r),
            final(self)@.chain == old(self)@.chain,
    {
        proof {
            reveal(effect);
        }
        let pc = self.registers.get16(R16::PC);
        let ext: u16 = if e < 0 {
            (0x10000i32 + e as i32) as u16
        } else {
            e as u16
        };
        let next_pc = pc.wrapping_add(ext);
        Ok(Some(single((Op::Ld, OpArg::Reg16(R16::PC), OpArg::U16(HexU16(next_pc))))))
    }

    fn exe_jr_c_i8(&mut self, c: Condition, e: i8, Ghost(m): Ghost<MmuState>) -> (r: ExecResult)
        ensures
            performs(old(self)@, m, (Op::Jr, OpArg::CC(c), OpArg::I8(e)), final(self)@, m, r),
            final(self)@.chain == old(self)@.chain,
    {
        proof {
            reveal(effect);
        }
        if self.check_cc(c) {
            self.exe_jr_i8(e, Ghost(m))
        } else {
            Ok(None)
        }
    }

    #[verifier::rlimit(40)]
    #[verifier::spinoff_prover]
    fn exe_add_r16_i8(&mut self, r16: R16, e: i8, Ghost(m): Ghost<MmuState>) -> (r: ExecResult)
        ensures
            performs(old(self)@, m, (Op::Add, OpArg::Reg16(r16), OpArg::I8(e)), final(self)@, m, r),
            final(self)@.chain == old(self)@.chain,
    {
        proof {
            reveal(effect);
        }
        let u: u16 = if e < 0 {
            (0x10000i32 + e as i32) as u16
        } else {
            e as u16
        };
        let r16_val = self.registers.get16(r16);
        let res = r16_val.wrapping_add(u);
        self.registers.set16(r16, res);
        self.registers.set_f(FFlag::Z, false);
        self.registers.set_f(FFlag::N, false);
        self.registers.set_f(FFlag::H, (r16_val & 0x0F) + (u & 0x0F) > 0x0F);
        self.registers.set_f(FFlag::C, (r16_val & 0xFF) + (u & 0xFF) > 0xFF);
        Ok(Some(pair((Op::Internal, OpArg::Non, OpArg::Non), (Op::Internal, OpArg::Non, OpArg::Non))))
    }

    fn exe_add_r16_r16(&mut self, r161: R16, r162: R16, Ghost(m): Ghost<MmuState>) -> (r: ExecResult)
        ensures
            performs(old(self)@, m, (Op::Add, OpArg::Reg16(r161), OpArg::Reg16(r162)), final(self)@, m, r),
            final(self)@.chain == old(self)@.chain,
    {
        proof {
            reveal(effect);
        }
        let r161_val = self.registers.get16(r161);
        let r162_val = self.registers.get16(r162);
        let res: u32 = r161_val as u32 + r162_val as u32;
        self.registers.set_f(FFlag::N, false);
        self.registers.set_f(FFlag::H, (r161_val & 0x0FFF) + (r162_val & 0x0FFF) > 0xFFF);
        self.registers.set_f(FFlag::C, res & 0xFF0000 != 0);
        self.registers.set16(r161, r161_val.wrapping_add(r162_val));
        Ok(None)
    }

    #[verifier::rlimit(40)]
    #[verifier::spinoff_prover]
    fn exe_ld_r16_spi8(&mut self, r16: R16, e: i8, Ghost(m): Ghost<MmuState>) -> (r: ExecResult)
        ensures
            performs(old(self)@, m, (Op::Ld, OpArg::Reg16(r16), OpArg::SPI8(e)), final(self)@, m, r),
            final(self)@.chain == old(self)@.chain,
    {
        proof {
            reveal(effect);
        }
        let sp = self.registers.get16(R16::SP);
        let u: u16 = if e < 0 {
            (0x10000i32 + e as i32) as u16
        } else {
            e as u16
        };
        let res = sp.wrapping_add(u);
        self.registers.set_f(FFlag::Z, false);
        self.registers.set_f(FFlag::N, false);
        self.registers.set_f(FFlag::H, (sp & 0xf) + (u & 0xf) > 0xf);
        self.registers.set_f(FFlag::C, (sp & 0xff) + (u & 0xff) > 0xff);
        self.registers.set16(r16, res);
        Ok(Some(single((Op::Internal, OpArg::Non, OpArg::Non))))
    }

    fn exe_ld_r8_u8(&mut self, r8: R8, v: u8, Ghost(m): Ghost<MmuState>) -> (r: ExecResult)
        ensures
            performs(old(self)@, m, (Op::Ld, OpArg::Reg8(r8), OpArg::U8(HexU8(v))), final(self)@, m, r),
            final(self)@.chain == old(self)@.chain,
    {
        proof {
            reveal(effect);
        }
        self.registers.set8(r8, v);
        Ok(None)
    }

    fn exe_ld_r8_r8(&mut self, r81: R8, r82: R8, Ghost(m): Ghost<MmuState>) -> (r: ExecResult)
        ensures
            performs(old(self)@, m, (Op::Ld, OpArg::Reg8(r81), OpArg::Reg8(r82)), final(self)@, m, r),
            final(self)@.chain == old(self)@.chain,
    {
        proof {
            reveal(effect);
        }
        let v = self.registers.get8(r82);
        self.registers.set8(r81, v);
        Ok(None)
    }

    fn exe_ld_r16_u16(&mut self, r16: R16, v: u16, Ghost(m): Ghost<MmuState>) -> (r: ExecResult)
        ensures
            performs(old(self)@, m, (Op::Ld, OpArg::Reg16(r16), OpArg::U16(HexU16(v))), final(self)@, m, r),
            final(self)@.chain == old(self)@.chain,
    {
        proof {
            reveal(effect);
        }
        self.registers.set16(r16, v);
        Ok(None)
    }

    fn exe_ld_r16_r16(&mut self, r161: R16, r162: R16, Ghost(m): Ghost<MmuState>) -> (r: ExecResult)
        ensures
            performs(old(self)@, m, (Op::Ld, OpArg::Reg16(r161), OpArg::Reg16(r162)), final(self)@, m, r),
            final(self)@.chain == old(self)@.chain,
    {
        proof {
            reveal(effect);
        }
        let v = self.registers.get16(r162);
        self.registers.set16(r161, v);
        Ok(None)
    }

    fn exe_ld_r8_addru16(&mut self, r8: R8, a: u16, Ghost(m): Ghost<MmuState>) -> (r: ExecResult)
        ensures
            performs(old(self)@, m, (Op::Ld, OpArg::Reg8(r8), OpArg::AddrU16(HexU16(a))), final(self)@, m, r),
            final(self)@.chain == old(self)@.chain,
    {
        proof {
            reveal(effect);
        }
        Ok(Some(single((Op::Read, OpArg::Reg8(r8), OpArg::AddrU16(HexU16(a))))))
    }

    fn exe_ld_addru16_r8(&mut self, a: u16, r8: R8, Ghost(m): Ghost<MmuState>) -> (r: ExecResult)
        ensures
            performs(old(self)@, m, (Op::Ld, OpArg::AddrU16(HexU16(a)), OpArg::Reg8(r8)), final(self)@, m, r),
            final(self)@.chain == old(self)@.chain,
    {
        proof {
            reveal(effect);
        }
        Ok(Some(single((Op::Write, OpArg::AddrU16(HexU16(a)), OpArg::U8(HexU8(self.registers.get8(r8)))))))
    }

    fn exe_ld_addru16_r16(&mut self, a: u16, r16: R16, Ghost(m): Ghost<MmuState>) -> (r: ExecResult)
        ensures
            performs(old(self)@, m, (Op::Ld, OpArg::AddrU16(HexU16(a)), OpArg::Reg16(r16)), final(self)@, m, r),
            final(self)@.chain == old(self)@.chain,
    {
        proof {
            reveal(effect);
        }
        let val = self.registers.get16(r16);
        let val_1 = (val % 256) as u8;
        let val_2 = (val / 256) as u8;
        Ok(Some(pair((Op::Ld, OpArg::AddrU16(HexU16(a)), OpArg::U8(HexU8(val_1))), (Op::Ld, OpArg::AddrU16(HexU16(a.wrapping_add(1))), OpArg::U8(HexU8(val_2))))))
    }

    fn exe_ld_addrr16_u8(&mut self, r16: R16, v: u8, Ghost(m): Ghost<MmuState>) -> (r: ExecResult)
        ensures
            performs(old(self)@, m, (Op::Ld, OpArg::AddrReg16(r16), OpArg::U8(HexU8(v))), final(self)@, m, r),
            final(self)@.chain == old(self)@.chain,
    {
        proof {
            reveal(effect);
        }
        let addr = self.registers.get16(r16);
        Ok(Some(single((Op::Ld, OpArg::AddrU16(HexU16(addr)), OpArg::U8(HexU8(v))))))
    }

    fn exe_ld_addru16_u8(&mut self, a: u16, v: u8, mmu: &mut MMU) -> (r: ExecResult)
        requires
            old(mmu)@.wf(),
            old(mmu)@.cart is Some,
        ensures
            performs(old(self)@, old(mmu)@, (Op::Ld, OpArg::AddrU16(HexU16(a)), OpArg::U8(HexU8(v))), final(self)@, final(mmu)@, r),
            final(mmu)@.wf(),
            final(mmu)@.cart is Some,
            final(self)@.chain == old(self)@.chain,
    {
        proof {
            reveal(effect);
        }
        mmu.set(a, v);
        Ok(None)
    }

    fn exe_write_addru16_u8(&mut self, a: u16, v: u8, mmu: &mut MMU) -> (r: ExecResult)
        requires
            old(mmu)@.wf(),
            old(mmu)@.cart is Some,
        ensures
            performs(old(self)@, old(mmu)@, (Op::Write, OpArg::AddrU16(HexU16(a)), OpArg::U8(HexU8(v))), final(self)@, final(mmu)@, r),
            final(mmu)@.wf(),
            final(mmu)@.cart is Some,
            final(self)@.chain == old(self)@.chain,
    {
        proof {
            reveal(effect);
        }
        mmu.set(a, v);
        Ok(None)
    }

    fn exe_read_r8_addru16(&mut self, r8: R8, a: u16, mmu: &MMU) -> (r: ExecResult)
        requires
            mmu@.wf(),
            mmu@.cart is Some,
        ensures
            performs(old(self)@, mmu@, (Op::Read, OpArg::Reg8(r8), OpArg::AddrU16(HexU16(a))), final(self)@, mmu@, r),
            final(self)@.chain == old(self)@.chain,
    {
        proof {
            reveal(effect);
        }
        let v = mmu.get(a);
        self.registers.set8(r8, v);
        Ok(None)
    }

    fn exe_ld_r8_addrr16(&mut self, r8: R8, r16: R16, mmu: &MMU) -> (r: ExecResult)
        requires
            mmu@.wf(),
            mmu@.cart is Some,
        ensures
            performs(old(self)@, mmu@, (Op::Ld, OpArg::Reg8(r8), OpArg::AddrReg16(r16)), final(self)@, mmu@, r),
            final(self)@.chain == old(self)@.chain,
    {
        proof {
            reveal(effect);
        }
        let addr = self.registers.get16(r16);
        let v = mmu.get(addr);
        self.registers.set8(r8, v);
        Ok(None)
    }

    fn exe_ld_r8_addrr16i(&mut self, r8: R8, r16: R16, mmu: &MMU) -> (r: ExecResult)
        requires
            mmu@.wf(),
            mmu@.cart is Some,
        ensures
            performs(old(self)@, mmu@, (Op::Ld, OpArg::Reg8(r8), OpArg::AddrReg16i(r16)), final(self)@, mmu@, r),
            final(self)@.chain == old(self)@.chain,
    {
        proof {
            reveal(effect);
        }
        let addr = self.registers.get16i(r16, 1);
        let v = mmu.get(addr);
        self.registers.set8(r8, v);
        Ok(None)
    }

    fn exe_ld_r8_addrr16d(&mut self, r8: R8, r16: R16, mmu: &MMU) -> (r: ExecResult)
        requires
            mmu@.wf(),
            mmu@.cart is Some,
        ensures
            performs(old(self)@, mmu@, (Op::Ld, OpArg::Reg8(r8), OpArg::AddrReg16d(r16)), final(self)@, mmu@, r),
            final(self)@.chain == old(self)@.chain,
    {
        proof {
            reveal(effect);
        }
        let addr = self.registers.get16d(r16, 1);
        let v = mmu.get(addr);
        self.registers.set8(r8, v);
        Ok(None)
    }

    fn exe_ld_r8_inaddru8(&mut self, r8: R8, a: u8, mmu: &MMU) -> (r: ExecResult)
        requires
            mmu@.wf(),
            mmu@.cart is Some,
        ensures
            performs(old(self)@, mmu@, (Op::Ld, OpArg::Reg8(r8), OpArg::InAddrU8(HexU8(a))), final(self)@, mmu@, r),
            final(self)@.chain == old(self)@.chain,
    {
        proof {
            reveal(effect);
        }
        let addr = 0xFF00 + (a as u16);
        let v = mmu.get(addr);
        self.registers.set8(r8, v);
        Ok(None)
    }

    fn exe_ld_r8_inaddrr8(&mut self, r81: R8, r82: R8, mmu: &MMU) -> (r: ExecResult)
        requires
            mmu@.wf(),
            mmu@.cart is Some,
        ensures
            performs(old(self)@, mmu@, (Op::Ld, OpArg::Reg8(r81), OpArg::InAddrReg8(r82)), final(self)@, mmu@, r),
            final(self)@.chain == old(self)@.chain,
    {
        proof {
            reveal(effect);
        }
        let addr = 0xFF00 + (self.registers.get8(r82) as u16);
        let v = mmu.get(addr);
        self.registers.set8(r81, v);
        Ok(None)
    }

    fn exe_ld_addrr16_r8(&mut self, r16: R16, r8: R8, mmu: &mut MMU) -> (r: ExecResult)
        requires
            old(mmu)@.wf(),
            old(mmu)@.cart is Some,
        ensures
            performs(old(self)@, old(mmu)@, (Op::Ld, OpArg::AddrReg16(r16), OpArg::Reg8(r8)), final(self)@, final(mmu)@, r),
            final(mmu)@.wf(),
            final(mmu)@.cart is Some,
            final(self)@.chain == old(self)@.chain,
    {
        proof {
            reveal(effect);
        }
        let addr = self.registers.get16(r16);
        mmu.set(addr, self.registers.get8(r8));
        Ok(None)
    }

    fn exe_ld_addrr16i_r8(&mut self, r16: R16, r8: R8, mmu: &mut MMU) -> (r: ExecResult)
        requires
            old(mmu)@.wf(),
            old(mmu)@.cart is Some,
        ensures
            performs(old(self)@, old(mmu)@, (Op::Ld, OpArg::AddrReg16i(r16), OpArg::Reg8(r8)), final(self)@, final(mmu)@, r),
            final(mmu)@.wf(),
            final(mmu)@.cart is Some,
            final(self)@.chain == old(self)@.chain,
    {
        proof {
            reveal(effect);
        }
        let addr = self.registers.get16i(r16, 1);
        mmu.set(addr, self.registers.get8(r8));
        Ok(None)
    }

    fn exe_ld_addrr16d_r8(&mut self, r16: R16, r8: R8, mmu: &mut MMU) -> (r: ExecResult)
        requires
            old(mmu)@.wf(),
            old(mmu)@.cart is Some,
        ensures
            performs(old(self)@, old(mmu)@, (Op::Ld, OpArg::AddrReg16d(r16), OpArg::Reg8(r8)), final(self)@, final(mmu)@, r),
            final(mmu)@.wf(),
            final(mmu)@.cart is Some,
            final(self)@.chain == old(self)@.chain,
    {
        proof {
            reveal(effect);
        }
        let addr = self.registers.get16d(r16, 1);
        mmu.set(addr, self.registers.get8(r8));
        Ok(None)
    }

    fn exe_ld_addrdr16_r8(&mut self, r16: R16, r8: R8, mmu: &mut MMU) -> (r: ExecResult)
        requires
            old(mmu)@.wf(),
            old(mmu)@.cart is Some,
        ensures
            performs(old(self)@, old(mmu)@, (Op::Ld, OpArg::AddrRegd16(r16), OpArg::Reg8(r8)), final(self)@, final(mmu)@, r),
            final(mmu)@.wf(),
            final(mmu)@.cart is Some,
            final(self)@.chain == old(self)@.chain,
    {
        proof {
            reveal(effect);
        }
        let addr = self.registers.getd16(r16, 1);
        mmu.set(addr, self.registers.get8(r8));
        Ok(None)
    }

    fn exe_ld_addrdr16_u8(&mut self, r16: R16, v: u8, mmu: &mut MMU) -> (r: ExecResult)
        requires
            old(mmu)@.wf(),
            old(mmu)@.cart is Some,
        ensures
            performs(old(self)@, old(mmu)@, (Op::Ld, OpArg::AddrRegd16(r16), OpArg::U8(HexU8(v))), final(self)@, final(mmu)@, r),
            final(mmu)@.wf(),
            final(mmu)@.cart is Some,
            final(self)@.chain == old(self)@.chain,
    {
        proof {
            reveal(effect);
        }
        let addr = self.registers.getd16(r16, 1);
        mmu.set(addr, v);
        Ok(None)
    }

    fn exe_ld_inaddrr8_r8(&mut self, r81: R8, r82: R8, mmu: &mut MMU) -> (r: ExecResult)
        requires
            old(mmu)@.wf(),
            old(mmu)@.cart is Some,
        ensures
            performs(old(self)@, old(mmu)@, (Op::Ld, OpArg::InAddrReg8(r81), OpArg::Reg8(r82)), final(self)@, final(mmu)@, r),
            final(mmu)@.wf(),
            final(mmu)@.cart is Some,
            final(self)@.chain == old(self)@.chain,
    {
        proof {
            reveal(effect);
        }
        let addr = 0xFF00 + (self.registers.get8(r81) as u16);
        mmu.set(addr, self.registers.get8(r82));
        Ok(None)
    }

    fn exe_ld_inaddru8_r8(&mut self, a: u8, r8: R8, mmu: &mut MMU) -> (r: ExecResult)
        requires
            old(mmu)@.wf(),
            old(mmu)@.cart is Some,
        ensures
            performs(old(self)@, old(mmu)@, (Op::Ld, OpArg::InAddrU8(HexU8(a)), OpArg::Reg8(r8)), final(self)@, final(mmu)@, r),
            final(mmu)@.wf(),
            final(mmu)@.cart is Some,
            final(self)@.chain == old(self)@.chain,
    {
        proof {
            reveal(effect);
        }
        let addr = 0xFF00 + (a as u16);
        mmu.set(addr, self.registers.get8(r8));
        Ok(None)
    }

}

/// The rank of a micro-operation for the recursion of decoding: a decoded
/// opcode that runs at once is never itself a decode.
pub open spec fn decode_rank(ins: Ins) -> int {
    if ins.0 == Op::Dcd || ins.0 == Op::DcdCB {
        1
    } else {
        0
    }
}

/// Every table entry holds at least one micro-operation, and an entry that runs at
/// once holds a single one that is not a decode.
proof fn lemma_base_opcode(b: u8)
    ensures
        base_opcode(b) matches Some(entry) ==> entry_is_sound(entry),
{
}

proof fn lemma_cb_opcode(b: u8)
    ensures
        entry_is_sound(cb_opcode(b)),
{
}

pub open spec fn entry_is_sound(entry: (bool, Seq<Ins>)) -> bool {
    &&& entry.1.len() >= 1
    &&& entry.0 ==> entry.1.len() == 1 && decode_rank(entry.1[0]) == 0
}

impl CPU {
    /// Runs one micro-operation.
    pub(crate) fn execute(&mut self, instruction: Ins, mmu: &mut MMU) -> (r: ExecResult)
        requires
            old(mmu)@.wf(),
            old(mmu)@.cart is Some,
        ensures
            performs(old(self)@, old(mmu)@, instruction, final(self)@, final(mmu)@, r),
            final(self)@.chain == old(self)@.chain,
            final(mmu)@.wf(),
            final(mmu)@.cart is Some,
        decreases decode_rank(instruction), 1int,
    {
        match instruction.0 {
            Op::Dcd | Op::DcdCB => match instruction {
                (Op::Dcd, OpArg::U8(v), OpArg::Non) => self.exe_decode_u8(v.0, mmu),
                (Op::DcdCB, OpArg::U8(v), OpArg::Non) => self.exe_decode_cb_u8(v.0, mmu),
                _ => {
                    proof {
                        reveal(effect);
                    }
                    Err(unknown_instruction(instruction))
                },
            },
            Op::Adc | Op::Add => self.execute_add(instruction, mmu),
            Op::And | Op::Or | Op::Xor => self.execute_logic(instruction, mmu),
            Op::Cp | Op::Sbc | Op::Sub => self.execute_sub(instruction, mmu),
            Op::Ld => match instruction.1 {
                OpArg::Reg8(_) | OpArg::Reg16(_) => self.execute_ld_load(instruction, mmu),
                _ => self.execute_ld_store(instruction, mmu),
            },
            Op::Read | Op::Write => self.execute_mem(instruction, mmu),
            Op::Bit | Op::Res | Op::SetBit => self.execute_bits(instruction, mmu),
            Op::Rl | Op::Rla | Op::Rlc | Op::Rlca | Op::Rr | Op::Rra | Op::Rrc | Op::Rrca => self.execute_rotate(instruction, mmu),
            Op::Sla | Op::Sra | Op::Srl | Op::Swap => self.execute_shift(instruction, mmu),
            Op::Call | Op::Jp | Op::Jr | Op::Ret | Op::Rst => self.execute_jump(instruction, mmu),
            Op::Ccf | Op::Cpl | Op::Daa | Op::Dec | Op::Di | Op::Ei | Op::EiImm | Op::Halt | Op::Inc | Op::Internal | Op::Nop | Op::Scf => self.execute_misc(instruction, mmu),
        }
    }

    #[verifier::rlimit(100)]
    #[verifier::spinoff_prover]
    fn execute_add(&mut self, instruction: Ins, mmu: &mut MMU) -> (r: ExecResult)
        requires
            old(mmu)@.wf(),
            old(mmu)@.cart is Some,
            instruction.0 == Op::Adc || instruction.0 == Op::Add,
        ensures
            performs(old(self)@, old(mmu)@, instruction, final(self)@, final(mmu)@, r),
            final(self)@.chain == old(self)@.chain,
            final(mmu)@.wf(),
            final(mmu)@.cart is Some,
    {
        match instruction {
            (Op::Adc, OpArg::Reg8(r8), OpArg::AddrReg16(r16)) => self.exe_adc_r8_addrr16(r8, r16, mmu),
            (Op::Adc, OpArg::Reg8(r8), OpArg::U8(v)) => self.exe_adc_r8_u8(r8, v.0, Ghost(mmu@)),
            (Op::Adc, OpArg::Reg8(r81), OpArg::Reg8(r82)) => self.exe_adc_r8_r8(r81, r82, Ghost(mmu@)),
            (Op::Add, OpArg::Reg16(r16), OpArg::I8(e)) => self.exe_add_r16_i8(r16, e, Ghost(mmu@)),
            (Op::Add, OpArg::Reg16(r161), OpArg::Reg16(r162)) => self.exe_add_r16_r16(r161, r162, Ghost(mmu@)),
            (Op::Add, OpArg::Reg8(r8), OpArg::AddrReg16(r16)) => self.exe_add_r8_addrr16(r8, r16, mmu),
            (Op::Add, OpArg::Reg8(r81), OpArg::Reg8(r82)) => self.exe_add_r8_r8(r81, r82, Ghost(mmu@)),
            (Op::Add, OpArg::Reg8(r8), OpArg::U8(v)) => self.exe_add_r8_u8(r8, v.0, Ghost(mmu@)),
            _ => {
                proof {
                    reveal(effect);
                }
                Err(unknown_instruction(instruction))
            },
        }
    }

    #[verifier::rlimit(100)]
    #[verifier::spinoff_prover]
    fn execute_logic(&mut self, instruction: Ins, mmu: &mut MMU) -> (r: ExecResult)
        requires
            old(mmu)@.wf(),
            old(mmu)@.cart is Some,
            instruction.0 == Op::And || instruction.0 == Op::Or || instruction.0 == Op::Xor,
        ensures
            performs(old(self)@, old(mmu)@, instruction, final(self)@, final(mmu)@, r),
            final(self)@.chain == old(self)@.chain,
            final(mmu)@.wf(),
            final(mmu)@.cart is Some,
    {
        match instruction {
            (Op::And, OpArg::Reg8(r8), OpArg::AddrReg16(r16)) => self.exe_and_r8_addrr16(r8, r16, mmu),
            (Op::And, OpArg::Reg8(r8), OpArg::U8(v)) => self.exe_and_r8_u8(r8, v.0, Ghost(mmu@)),
            (Op::And, OpArg::Reg8(r81), OpArg::Reg8(r82)) => self.exe_and_r8_r8(r81, r82, Ghost(mmu@)),
            (Op::Or, OpArg::Reg8(r8), OpArg::AddrReg16(r16)) => self.exe_or_r8_addrr16(r8, r16, mmu),
            (Op::Or, OpArg::Reg8(r8), OpArg::U8(v)) => self.exe_or_r8_u8(r8, v.0, Ghost(mmu@)),
            (Op::Or, OpArg::Reg8(r81), OpArg::Reg8(r82)) => self.exe_or_r8_r8(r81, r82, Ghost(mmu@)),
            (Op::Xor, OpArg::Reg8(r8), OpArg::AddrReg16(r16)) => self.exe_xor_r8_addrr16(r8, r16, mmu),
            (Op::Xor, OpArg::Reg8(r8), OpArg::U8(v)) => self.exe_xor_r8_u8(r8, v.0, Ghost(mmu@)),
            (Op::Xor, OpArg::Reg8(r81), OpArg::Reg8(r82)) => self.exe_xor_r8_r8(r81, r82, Ghost(mmu@)),
            _ => {
                proof {
                    reveal(effect);
                }
                Err(unknown_instruction(instruction))
            },
        }
    }

    #[verifier::rlimit(100)]
    #[verifier::spinoff_prover]
    fn execute_sub(&mut self, instruction: Ins, mmu: &mut MMU) -> (r: ExecResult)
        requires
            old(mmu)@.wf(),
            old(mmu)@.cart is Some,
            instruction.0 == Op::Cp || instruction.0 == Op::Sbc || instruction.0 == Op::Sub,
        ensures
            performs(old(self)@, old(mmu)@, instruction, final(self)@, final(mmu)@, r),
            final(self)@.chain == old(self)@.chain,
            final(mmu)@.wf(),
            final(mmu)@.cart is Some,
    {
        match instruction {
            (Op::Cp, OpArg::Reg8(r8), OpArg::AddrReg16(r16)) => self.exe_cp_r8_addrr16(r8, r16, mmu),
            (Op::Cp, OpArg::Reg8(r8), OpArg::U8(v)) => self.exe_cp_r8_u8(r8, v.0, Ghost(mmu@)),
            (Op::Cp, OpArg::Reg8(r81), OpArg::Reg8(r82)) => self.exe_cp_r8_r8(r81, r82, Ghost(mmu@)),
            (Op::Sbc, OpArg::Reg8(r8), OpArg::AddrReg16(r16)) => self.exe_sbc_r8_addrr16(r8, r16, mmu),
            (Op::Sbc, OpArg::Reg8(r8), OpArg::U8(v)) => self.exe_sbc_r8_u8(r8, v.0, Ghost(mmu@)),
            (Op::Sbc, OpArg::Reg8(r81), OpArg::Reg8(r82)) => self.exe_sbc_r8_r8(r81, r82, Ghost(mmu@)),
            (Op::Sub, OpArg::Reg8(r8), OpArg::AddrReg16(r16)) => self.exe_sub_r8_addrr16(r8, r16, mmu),
            (Op::Sub, OpArg::Reg8(r8), OpArg::U8(v)) => self.exe_sub_r8_u8(r8, v.0, Ghost(mmu@)),
            (Op::Sub, OpArg::Reg8(r81), OpArg::Reg8(r82)) => self.exe_sub_r8_r8(r81, r82, Ghost(mmu@)),
            _ => {
                proof {
                    reveal(effect);
                }
                Err(unknown_instruction(instruction))
            },
        }
    }

    #[verifier::rlimit(100)]
    #[verifier::spinoff_prover]
    fn execute_ld_store(&mut self, instruction: Ins, mmu: &mut MMU) -> (r: ExecResult)
        requires
            old(mmu)@.wf(),
            old(mmu)@.cart is Some,
            instruction.0 == Op::Ld,
            !(instruction.1 is Reg8 || instruction.1 is Reg16),
        ensures
            performs(old(self)@, old(mmu)@, instruction, final(self)@, final(mmu)@, r),
            final(self)@.chain == old(self)@.chain,
            final(mmu)@.wf(),
            final(mmu)@.cart is Some,
    {
        match instruction {
            (Op::Ld, OpArg::AddrReg16(r16), OpArg::Reg8(r8)) => self.exe_ld_addrr16_r8(r16, r8, mmu),
            (Op::Ld, OpArg::AddrReg16(r16), OpArg::U8(v)) => self.exe_ld_addrr16_u8(r16, v.0, Ghost(mmu@)),
            (Op::Ld, OpArg::AddrReg16d(r16), OpArg::Reg8(r8)) => self.exe_ld_addrr16d_r8(r16, r8, mmu),
            (Op::Ld, OpArg::AddrReg16i(r16), OpArg::Reg8(r8)) => self.exe_ld_addrr16i_r8(r16, r8, mmu),
            (Op::Ld, OpArg::AddrRegd16(r16), OpArg::Reg8(r8)) => self.exe_ld_addrdr16_r8(r16, r8, mmu),
            (Op::Ld, OpArg::AddrRegd16(r16), OpArg::U8(v)) => self.exe_ld_addrdr16_u8(r16, v.0, mmu),
            (Op::Ld, OpArg::AddrU16(a), OpArg::Reg16(r16)) => self.exe_ld_addru16_r16(a.0, r16, Ghost(mmu@)),
            (Op::Ld, OpArg::AddrU16(a), OpArg::Reg8(r8)) => self.exe_ld_addru16_r8(a.0, r8, Ghost(mmu@)),
            (Op::Ld, OpArg::AddrU16(a), OpArg::U8(v)) => self.exe_ld_addru16_u8(a.0, v.0, mmu),
            (Op::Ld, OpArg::InAddrReg8(r81), OpArg::Reg8(r82)) => self.exe_ld_inaddrr8_r8(r81, r82, mmu),
            (Op::Ld, OpArg::InAddrU8(a), OpArg::Reg8(r8)) => self.exe_ld_inaddru8_r8(a.0, r8, mmu),
            _ => {
                proof {
                    reveal(effect);
                }
                Err(unknown_instruction(instruction))
            },
        }
    }

    #[verifier::rlimit(100)]
    #[verifier::spinoff_prover]
    fn execute_ld_load(&mut self, instruction: Ins, mmu: &mut MMU) -> (r: ExecResult)
        requires
            old(mmu)@.wf(),
            old(mmu)@.cart is Some,
            instruction.0 == Op::Ld,
            instruction.1 is Reg8 || instruction.1 is Reg16,
        ensures
            performs(old(self)@, old(mmu)@, instruction, final(self)@, final(mmu)@, r),
            final(self)@.chain == old(self)@.chain,
            final(mmu)@.wf(),
            final(mmu)@.cart is Some,
    {
        match instruction {
            (Op::Ld, OpArg::Reg16(r16), OpArg::SPI8(e)) => self.exe_ld_r16_spi8(r16, e, Ghost(mmu@)),
            (Op::Ld, OpArg::Reg16(r16), OpArg::U16(v)) => self.exe_ld_r16_u16(r16, v.0, Ghost(mmu@)),
            (Op::Ld, OpArg::Reg16(r161), OpArg::Reg16(r162)) => self.exe_ld_r16_r16(r161, r162, Ghost(mmu@)),
            (Op::Ld, OpArg::Reg8(r8), OpArg::AddrReg16(r16)) => self.exe_ld_r8_addrr16(r8, r16, mmu),
            (Op::Ld, OpArg::Reg8(r8), OpArg::AddrReg16d(r16)) => self.exe_ld_r8_addrr16d(r8, r16, mmu),
            (Op::Ld, OpArg::Reg8(r8), OpArg::AddrReg16i(r16)) => self.exe_ld_r8_addrr16i(r8, r16, mmu),
            (Op::Ld, OpArg::Reg8(r8), OpArg::AddrU16(a)) => self.exe_ld_r8_addru16(r8, a.0, Ghost(mmu@)),
            (Op::Ld, OpArg::Reg8(r8), OpArg::InAddrU8(a)) => self.exe_ld_r8_inaddru8(r8, a.0, mmu),
            (Op::Ld, OpArg::Reg8(r8), OpArg::U8(v)) => self.exe_ld_r8_u8(r8, v.0, Ghost(mmu@)),
            (Op::Ld, OpArg::Reg8(r81), OpArg::InAddrReg8(r82)) => self.exe_ld_r8_inaddrr8(r81, r82, mmu),
            (Op::Ld, OpArg::Reg8(r81), OpArg::Reg8(r82)) => self.exe_ld_r8_r8(r81, r82, Ghost(mmu@)),
            _ => {
                proof {
                    reveal(effect);
                }
                Err(unknown_instruction(instruction))
            },
        }
    }

    #[verifier::rlimit(100)]
    #[verifier::spinoff_prover]
    fn execute_mem(&mut self, instruction: Ins, mmu: &mut MMU) -> (r: ExecResult)
        requires
            old(mmu)@.wf(),
            old(mmu)@.cart is Some,
            instruction.0 == Op::Read || instruction.0 == Op::Write,
        ensures
            performs(old(self)@, old(mmu)@, instruction, final(self)@, final(mmu)@, r),
            final(self)@.chain == old(self)@.chain,
            final(mmu)@.wf(),
            final(mmu)@.cart is Some,
    {
        match instruction {
            (Op::Read, OpArg::Reg8(r8), OpArg::AddrU16(a)) => self.exe_read_r8_addru16(r8, a.0, mmu),
            (Op::Write, OpArg::AddrU16(a), OpArg::U8(v)) => self.exe_write_addru16_u8(a.0, v.0, mmu),
            _ => {
                proof {
                    reveal(effect);
                }
                Err(unknown_instruction(instruction))
            },
        }
    }

    #[verifier::rlimit(100)]
    #[verifier::spinoff_prover]
    fn execute_bits(&mut self, instruction: Ins, mmu: &mut MMU) -> (r: ExecResult)
        requires
            old(mmu)@.wf(),
            old(mmu)@.cart is Some,
            instruction.0 == Op::Bit || instruction.0 == Op::Res || instruction.0 == Op::SetBit,
        ensures
            performs(old(self)@, old(mmu)@, instruction, final(self)@, final(mmu)@, r),
            final(self)@.chain == old(self)@.chain,
            final(mmu)@.wf(),
            final(mmu)@.cart is Some,
    {
        match instruction {
            (Op::Bit, OpArg::U8(b), OpArg::AddrReg16(r16)) => self.exe_bit_u8_addrr16(b.0, r16, mmu),
            (Op::Bit, OpArg::U8(b), OpArg::Reg8(r8)) => self.exe_bit_u8_r8(b.0, r8, Ghost(mmu@)),
            (Op::Res, OpArg::U8(b), OpArg::AddrReg16(r16)) => self.exe_res_u8_addrr16(b.0, r16, mmu),
            (Op::Res, OpArg::U8(b), OpArg::Reg8(r8)) => self.exe_res_u8_r8(b.0, r8, Ghost(mmu@)),
            (Op::SetBit, OpArg::U8(b), OpArg::AddrReg16(r16)) => self.exe_set_u8_addrr16(b.0, r16, mmu),
            (Op::SetBit, OpArg::U8(b), OpArg::Reg8(r8)) => self.exe_set_u8_r8(b.0, r8, Ghost(mmu@)),
            _ => {
                proof {
                    reveal(effect);
                }
                Err(unknown_instruction(instruction))
            },
        }
    }

    #[verifier::rlimit(100)]
    #[verifier::spinoff_prover]
    fn execute_rotate(&mut self, instruction: Ins, mmu: &mut MMU) -> (r: ExecResult)
        requires
            old(mmu)@.wf(),
            old(mmu)@.cart is Some,
            instruction.0 == Op::Rl || instruction.0 == Op::Rla || instruction.0 == Op::Rlc || instruction.0 == Op::Rlca || instruction.0 == Op::Rr || instruction.0 == Op::Rra || instruction.0 == Op::Rrc || instruction.0 == Op::Rrca,
        ensures
            performs(old(self)@, old(mmu)@, instruction, final(self)@, final(mmu)@, r),
            final(self)@.chain == old(self)@.chain,
            final(mmu)@.wf(),
            final(mmu)@.cart is Some,
    {
        match instruction {
            (Op::Rl, OpArg::AddrReg16(r16), OpArg::Non) => self.exe_rl_addrr16(r16, mmu),
            (Op::Rl, OpArg::Reg8(r8), OpArg::Non) => self.exe_rl_r8(r8, Ghost(mmu@)),
            (Op::Rla, OpArg::Non, OpArg::Non) => self.exe_rla(Ghost(mmu@)),
            (Op::Rlc, OpArg::AddrReg16(r16), OpArg::Non) => self.exe_rlc_addrr16(r16, mmu),
            (Op::Rlc, OpArg::Reg8(r8), OpArg::Non) => self.exe_rlc_r8(r8, Ghost(mmu@)),
            (Op::Rlca, OpArg::Non, OpArg::Non) => self.exe_rlca(Ghost(mmu@)),
            (Op::Rr, OpArg::AddrReg16(r16), OpArg::Non) => self.exe_rr_addrr16(r16, mmu),
            (Op::Rr, OpArg::Reg8(r8), OpArg::Non) => self.exe_rr_r8(r8, Ghost(mmu@)),
            (Op::Rra, OpArg::Non, OpArg::Non) => self.exe_rra(Ghost(mmu@)),
            (Op::Rrc, OpArg::AddrReg16(r16), OpArg::Non) => self.exe_rrc_addrr16(r16, mmu),
            (Op::Rrc, OpArg::Reg8(r8), OpArg::Non) => self.exe_rrc_r8(r8, Ghost(mmu@)),
            (Op::Rrca, OpArg::Non, OpArg::Non) => self.exe_rrca(Ghost(mmu@)),
            _ => {
                proof {
                    reveal(effect);
                }
                Err(unknown_instruction(instruction))
            },
        }
    }

    #[verifier::rlimit(100)]
    #[verifier::spinoff_prover]
    fn execute_shift(&mut self, instruction: Ins, mmu: &mut MMU) -> (r: ExecResult)
        requires
            old(mmu)@.wf(),
            old(mmu)@.cart is Some,
            instruction.0 == Op::Sla || instruction.0 == Op::Sra || instruction.0 == Op::Srl || instruction.0 == Op::Swap,
        ensures
            performs(old(self)@, old(mmu)@, instruction, final(self)@, final(mmu)@, r),
            final(self)@.chain == old(self)@.chain,
            final(mmu)@.wf(),
            final(mmu)@.cart is Some,
    {
        match instruction {
            (Op::Sla, OpArg::AddrReg16(r16), OpArg::Non) => self.exe_sla_addrr16(r16, mmu),
            (Op::Sla, OpArg::Reg8(r8), OpArg::Non) => self.exe_sla_r8(r8, Ghost(mmu@)),
            (Op::Sra, OpArg::AddrReg16(r16), OpArg::Non) => self.exe_sra_addrr16(r16, mmu),
            (Op::Sra, OpArg::Reg8(r8), OpArg::Non) => self.exe_sra_r8(r8, Ghost(mmu@)),
            (Op::Srl, OpArg::AddrReg16(r16), OpArg::Non) => self.exe_srl_addrr16(r16, mmu),
            (Op::Srl, OpArg::Reg8(r8), OpArg::Non) => self.exe_srl_r8(r8, Ghost(mmu@)),
            (Op::Swap, OpArg::AddrReg16(r16), OpArg::Non) => self.exe_swap_addrr16(r16, mmu),
            (Op::Swap, OpArg::Reg8(r8), OpArg::Non) => self.exe_swap_r8(r8, Ghost(mmu@)),
            _ => {
                proof {
                    reveal(effect);
                }
                Err(unknown_instruction(instruction))
            },
        }
    }

    #[verifier::rlimit(100)]
    #[verifier::spinoff_prover]
    fn execute_jump(&mut self, instruction: Ins, mmu: &mut MMU) -> (r: ExecResult)
        requires
            old(mmu)@.wf(),
            old(mmu)@.cart is Some,
            instruction.0 == Op::Call || instruction.0 == Op::Jp || instruction.0 == Op::Jr || instruction.0 == Op::Ret || instruction.0 == Op::Rst,
        ensures
            performs(old(self)@, old(mmu)@, instruction, final(self)@, final(mmu)@, r),
            final(self)@.chain == old(self)@.chain,
            final(mmu)@.wf(),
            final(mmu)@.cart is Some,
    {
        match instruction {
            (Op::Call, OpArg::CC(c), OpArg::U16(a)) => self.exe_call_c_u16(c, a.0, Ghost(mmu@)),
            (Op::Call, OpArg::U16(a), OpArg::Non) => self.exe_call_u16(a.0, Ghost(mmu@)),
            (Op::Jp, OpArg::CC(c), OpArg::U16(a)) => self.exe_jp_c_u16(c, a.0, Ghost(mmu@)),
            (Op::Jp, OpArg::Reg16(r16), OpArg::Non) => self.exe_jp_r16(r16, Ghost(mmu@)),
            (Op::Jp, OpArg::U16(a), OpArg::Non) => self.exe_jp_u16(a.0, Ghost(mmu@)),
            (Op::Jr, OpArg::CC(c), OpArg::I8(e)) => self.exe_jr_c_i8(c, e, Ghost(mmu@)),
            (Op::Jr, OpArg::I8(e), OpArg::Non) => self.exe_jr_i8(e, Ghost(mmu@)),
            (Op::Ret, OpArg::CC(c), OpArg::Non) => self.exe_ret_c(c, Ghost(mmu@)),
            (Op::Rst, OpArg::U16(a), OpArg::Non) => self.exe_rst_u16(a.0, Ghost(mmu@)),
            _ => {
                proof {
                    reveal(effect);
                }
                Err(unknown_instruction(instruction))
            },
        }
    }

    #[verifier::rlimit(100)]
    #[verifier::spinoff_prover]
    fn execute_misc(&mut self, instruction: Ins, mmu: &mut MMU) -> (r: ExecResult)
        requires
            old(mmu)@.wf(),
            old(mmu)@.cart is Some,
            instruction.0 == Op::Ccf || instruction.0 == Op::Cpl || instruction.0 == Op::Daa || instruction.0 == Op::Dec || instruction.0 == Op::Di || instruction.0 == Op::Ei || instruction.0 == Op::EiImm || instruction.0 == Op::Halt || instruction.0 == Op::Inc || instruction.0 == Op::Internal || instruction.0 == Op::Nop || instruction.0 == Op::Scf,
        ensures
            performs(old(self)@, old(mmu)@, instruction, final(self)@, final(mmu)@, r),
            final(self)@.chain == old(self)@.chain,
            final(mmu)@.wf(),
            final(mmu)@.cart is Some,
    {
        match instruction {
            (Op::Ccf, OpArg::Non, OpArg::Non) => self.exe_ccf(Ghost(mmu@)),
            (Op::Cpl, OpArg::Non, OpArg::Non) => self.exe_cpl(Ghost(mmu@)),
            (Op::Daa, OpArg::Non, OpArg::Non) => self.exe_daa(Ghost(mmu@)),
            (Op::Dec, OpArg::AddrReg16(r16), OpArg::Non) => self.exe_dec_addrr16(r16, mmu),
            (Op::Dec, OpArg::Reg16(r16), OpArg::Non) => self.exe_dec_r16(r16, Ghost(mmu@)),
            (Op::Dec, OpArg::Reg8(r8), OpArg::Non) => self.exe_dec_r8(r8, Ghost(mmu@)),
            (Op::Di, OpArg::Non, OpArg::Non) => self.exe_di(Ghost(mmu@)),
            (Op::Ei, OpArg::Non, OpArg::Non) => self.exe_ei(Ghost(mmu@)),
            (Op::EiImm, OpArg::Non, OpArg::Non) => self.exe_ei_imm(Ghost(mmu@)),
            (Op::Halt, OpArg::Non, OpArg::Non) => self.exe_halt(Ghost(mmu@)),
            (Op::Inc, OpArg::AddrReg16(r16), OpArg::Non) => self.exe_inc_addrr16(r16, mmu),
            (Op::Inc, OpArg::Reg16(r16), OpArg::Non) => self.exe_inc_r16(r16, Ghost(mmu@)),
            (Op::Inc, OpArg::Reg8(r8), OpArg::Non) => self.exe_inc_r8(r8, Ghost(mmu@)),
            (Op::Internal, OpArg::Non, OpArg::Non) => {
                proof {
                    reveal(effect);
                }
                Ok(None)
            },
            (Op::Nop, OpArg::Non, OpArg::Non) => {
                proof {
                    reveal(effect);
                }
                Ok(None)
            },
            (Op::Scf, OpArg::Non, OpArg::Non) => self.exe_scf(Ghost(mmu@)),
            _ => {
                proof {
                    reveal(effect);
                }
                Err(unknown_instruction(instruction))
            },
        }
    }

    fn exe_decode_u8(&mut self, v: u8, mmu: &mut MMU) -> (r: ExecResult)
        requires
            old(mmu)@.wf(),
            old(mmu)@.cart is Some,
        ensures
            performs(old(self)@, old(mmu)@, (Op::Dcd, OpArg::U8(HexU8(v)), OpArg::Non), final(self)@, final(mmu)@, r),
            final(self)@.chain == old(self)@.chain,
            final(mmu)@.wf(),
            final(mmu)@.cart is Some,
        decreases 1int, 0int,
    {
        let (immediate_execute, result) = Self::decode(v);
        proof {
            lemma_base_opcode(v);
            reveal(effect);
        }
        if immediate_execute {
            if let Ok(Some(next_instruction)) = &result {
                let ins = next_instruction.ins();
                return self.execute(ins, mmu);
            }
        }
        result
    }

    fn exe_decode_cb_u8(&mut self, v: u8, mmu: &mut MMU) -> (r: ExecResult)
        requires
            old(mmu)@.wf(),
            old(mmu)@.cart is Some,
        ensures
            performs(old(self)@, old(mmu)@, (Op::DcdCB, OpArg::U8(HexU8(v)), OpArg::Non), final(self)@, final(mmu)@, r),
            final(self)@.chain == old(self)@.chain,
            final(mmu)@.wf(),
            final(mmu)@.cart is Some,
        decreases 1int, 0int,
    {
        let (immediate_execute, result) = Self::decode_cb(v);
        proof {
            lemma_cb_opcode(v);
            reveal(effect);
        }
        if immediate_execute {
            if let Ok(Some(next_instruction)) = &result {
                let ins = next_instruction.ins();
                return self.execute(ins, mmu);
            }
        }
        result
    }
}

} // verus!
