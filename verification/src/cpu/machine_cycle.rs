use vstd::prelude::*;
use crate::cpu::hex_u16::HexU16;
use crate::cpu::hex_u8::HexU8;
use crate::cpu::instruction::Instruction;
use crate::cpu::op::Op;
use crate::cpu::op_arg::OpArg;
use crate::cpu::registers::{R16, R8};
use crate::cpu::semantics::{Next, effect};
use crate::cpu::{
    CPU, CpuState, cycled, fetch_opcode, first_enabled, interrupt_chain, interrupt_step,
    memory_after, next_chain,
};
use crate::mmu::MMU;
use crate::mmu::interrupt_flag::requests_from;

verus! {

broadcast use crate::cpu::instruction::Instruction::lemma_chain_nonempty;

impl CPU {
    /// One machine cycle: fetch an operand byte or run a micro-operation, then
    /// the interrupt check. A fault hands back its message.
    pub fn cycle(&mut self, mmu: &mut MMU) -> (r: Result<(), String>)
        requires
            old(mmu)@.wf(),
            old(mmu)@.cart is Some,
        ensures
            final(self)@.wf(),
            final(mmu)@.wf(),
            final(mmu)@.cart is Some,
            cycled(old(self)@, old(mmu)@, final(self)@, final(mmu)@, r),
    {
        if !self.halted {
            let instruction = self.instruction.ins();
            let (done, instruction) = Self::fetch(instruction, &mut self.registers, mmu);
            if !done {
                self.instruction.set_ins(instruction);
                return Ok(());
            }
            let ghost before = self@;
            let ghost m0 = mmu@;
            let executed = self.execute(instruction, mmu);
            let ghost e = effect(before, m0, instruction);
            let ghost mid = mmu@;
            assert(memory_after(m0, e.write, mid));
            match executed {
                Err(msg) => {
                    return Err(msg);
                },
                Ok(next) => {
                    assert(self@ == e.cpu);
                    assert(match next {
                        Some(n) => e.next == Next::Then(n.chain()),
                        None => e.next == Next::Done,
                    });
                    self.advance(next);
                },
            }
            assert(self@ == CpuState { chain: next_chain(old(self)@.chain, e.next), ..e.cpu });
            self.handle_interrupt(mmu);
        } else {
            self.handle_interrupt(mmu);
        }
        Ok(())
    }

    /// Moves on to the micro-operations handed on, else to the rest of the
    /// chain, else to the fetch of the next opcode.
    fn advance(&mut self, next: Option<Instruction>)
        ensures
            final(self)@ == (CpuState {
                chain: match next {
                    Some(n) => n.chain(),
                    None => next_chain(old(self)@.chain, Next::Done),
                },
                ..old(self)@
            }),
    {
        match next {
            Some(next_instruction) => {
                let ghost c = next_instruction.chain();
                self.instruction = next_instruction;
                assert(self@.chain == c);
                assert(self@.registers == old(self)@.registers);
            },
            None => {
                let rest = self.instruction.next_mut().take();
                match rest {
                    Some(b) => {
                        assert(b.chain() == old(self)@.chain.drop_first());
                        self.instruction = *b;
                        assert(self@.chain == old(self)@.chain.drop_first());
                    },
                    None => {
                        self.instruction = Instruction::new(
                            (Op::Dcd, OpArg::FetchU8, OpArg::Non),
                            None,
                        );
                        assert(self@.chain =~= seq![fetch_opcode()]);
                    },
                }
            },
        }
    }

    /// The interrupt check between instructions.
    fn handle_interrupt(&mut self, mmu: &mut MMU)
        requires
            old(mmu)@.wf(),
            old(mmu)@.cart is Some,
        ensures
            final(mmu)@.wf(),
            final(mmu)@.cart is Some,
            interrupt_step(old(self)@, old(mmu)@, final(self)@, final(mmu)@),
    {
        if let (Op::Dcd, _, _) = self.instruction.ins() {
            if mmu.get(0xFFFF) & mmu.get(0xFF0F) != 0 {
                self.halted = false;
            }
            if self.ime {
                let mut iflag = mmu.get_interrupt_flags();
                let requests = iflag.get_request_by_priority();
                let ie = mmu.get_interrupt_enables();
                let ghost m = mmu@;
                let ghost before = self@;
                let mut i: usize = 0;
                assert(requests@.subrange(0, requests@.len() as int) =~= requests@);
                while i < requests.len()
                    invariant
                        i <= requests@.len(),
                        m == old(mmu)@,
                        m.wf(),
                        m.cart is Some,
                        self@ == before,
                        before.ime,
                        before == (CpuState { halted: before.halted, ..old(self)@ }),
                        before.halted == (if m.interrupt_enables & m.interrupt_flags != 0 {
                            false
                        } else {
                            old(self)@.halted
                        }),
                        old(self)@.chain[0].0 == Op::Dcd,
                        requests@ == requests_from(m.interrupt_flags, 0),
                        ie@ == m.interrupt_enables,
                        iflag@ == m.interrupt_flags,
                        mmu@ == m,
                        first_enabled(requests@, ie@) == first_enabled(requests@.subrange(i as int, requests@.len() as int), ie@),
                    decreases requests.len() - i,
                {
                    let request = requests[i];
                    proof {
                        let rest = requests@.subrange(i as int, requests@.len() as int);
                        assert(rest[0] == request);
                        assert(rest.drop_first() =~= requests@.subrange(i + 1, requests@.len() as int));
                    }
                    if ie.is_enable(request) {
                        iflag.disable_request(request);
                        mmu.set_interrupt_flags(iflag);
                        self.ime = false;
                        let ins0 = (Op::Nop, OpArg::Non, OpArg::Non);
                        let ins1 = (Op::Nop, OpArg::Non, OpArg::Non);
                        let ins2 = (Op::Ld, OpArg::AddrRegd16(R16::SP), OpArg::U8(HexU8(self.registers.get8(R8::PCh))));
                        let ins3 = (Op::Ld, OpArg::AddrRegd16(R16::SP), OpArg::U8(HexU8(self.registers.get8(R8::PCl))));
                        let ins4 = (Op::Ld, OpArg::Reg16(R16::PC), OpArg::U16(HexU16(request.routine_location())));
                        self.instruction = Instruction::new(
                            ins0,
                            Some(Box::new(Instruction::new(
                                ins1,
                                Some(Box::new(Instruction::new(
                                    ins2,
                                    Some(Box::new(Instruction::new(
                                        ins3,
                                        Some(Box::new(Instruction::new(ins4, None))),
                                    ))),
                                ))),
                            ))),
                        );
                        assert(self@.chain =~= interrupt_chain(self@.registers, request));
                        return;
                    }
                    i = i + 1;
                }
                proof {
                    assert(requests@.subrange(i as int, requests@.len() as int).len() == 0);
                }
            } else if self.ime_requested {
                self.ime_requested = false;
                self.ime = true;
            }
        }
    }

}

} // verus!
