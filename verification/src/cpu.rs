pub mod condition;
pub mod decoder;
mod executor;
mod fetcher;
pub mod fflag;
pub mod hex_u16;
pub mod hex_u8;
pub mod instruction;
mod machine_cycle;
pub mod op;
pub mod op_arg;
pub mod opcodes;
pub mod registers;
pub mod semantics;
pub mod trace;

use vstd::prelude::*;
use crate::cpu::fetcher::fetch_effect;
use crate::cpu::hex_u16::HexU16;
use crate::cpu::hex_u8::HexU8;
use crate::cpu::instruction::{Ins, Instruction, opt_chain};
use crate::cpu::op::Op;
use crate::cpu::op_arg::OpArg;
use crate::cpu::registers::{R16, R8, RegisterFile, Registers};
use crate::cpu::semantics::{Effect, Next, effect, result_is};
use crate::mmu::interrupt_flag::{InterruptRequest, bit_set, requests_from};
use crate::mmu::{MMU, MmuState};

verus! {

broadcast use crate::cpu::instruction::Instruction::lemma_chain_nonempty;

/// The mathematical model of the CPU.
pub struct CpuState {
    pub halted: bool,
    pub ime_requested: bool,
    pub ime: bool,
    pub registers: RegisterFile,
    /// The micro-operations still to run, head first.
    pub chain: Seq<Ins>,
}

impl CpuState {
    /// There is always a micro-operation to run.
    pub open spec fn wf(self) -> bool {
        self.chain.len() >= 1
    }
}

/// The micro-operation that fetches and decodes the next opcode.
pub open spec fn fetch_opcode() -> Ins {
    (Op::Dcd, OpArg::FetchU8, OpArg::Non)
}

/// The chain after a micro-operation: the one it hands on, else the rest of
/// the current chain, else the fetch of the next opcode.
pub open spec fn next_chain(chain: Seq<Ins>, next: Next) -> Seq<Ins> {
    match next {
        Next::Then(c) => c,
        _ => if chain.len() > 1 {
            chain.drop_first()
        } else {
            seq![fetch_opcode()]
        },
    }
}

/// Memory after a micro-operation's write, if it has one.
pub open spec fn memory_after(m: MmuState, write: Option<(u16, u8)>, after: MmuState) -> bool {
    match write {
        None => after == m,
        Some((a, v)) => m.written(a as int, v, after),
    }
}

/// The first request, in priority order, whose bit is set in `enables`.
pub open spec fn first_enabled(requests: Seq<InterruptRequest>, enables: u8) -> Option<InterruptRequest>
    decreases requests.len(),
{
    if requests.len() == 0 {
        None
    } else if bit_set(enables, requests[0].bit_index()) {
        Some(requests[0])
    } else {
        first_enabled(requests.drop_first(), enables)
    }
}

/// The interrupt that is served: the highest-priority one that is both
/// requested (IF) and enabled (IE).
pub open spec fn pending_interrupt(m: MmuState) -> Option<InterruptRequest> {
    first_enabled(requests_from(m.interrupt_flags, 0), m.interrupt_enables)
}

/// Serving an interrupt: two idle cycles, PC pushed high byte first, then PC
/// loaded with the handler's address.
pub open spec fn interrupt_chain(r: RegisterFile, request: InterruptRequest) -> Seq<Ins> {
    seq![
        (Op::Nop, OpArg::Non, OpArg::Non),
        (Op::Nop, OpArg::Non, OpArg::Non),
        (Op::Ld, OpArg::AddrRegd16(R16::SP), OpArg::U8(HexU8(r.get8(R8::PCh)))),
        (Op::Ld, OpArg::AddrRegd16(R16::SP), OpArg::U8(HexU8(r.get8(R8::PCl)))),
        (Op::Ld, OpArg::Reg16(R16::PC), OpArg::U16(HexU16(request.vector()))),
    ]
}

/// The interrupt check between instructions: when the next micro-operation is
/// an opcode fetch, a pending request wakes a halted CPU; with IME set the
/// highest-priority enabled request is served (its IF bit cleared, IME
/// cleared); otherwise a requested EI takes effect.
pub open spec fn interrupt_step(c: CpuState, m: MmuState, c2: CpuState, m2: MmuState) -> bool {
    if c.chain[0].0 == Op::Dcd {
        let halted = if m.interrupt_enables & m.interrupt_flags != 0 {
            false
        } else {
            c.halted
        };
        if c.ime {
            match pending_interrupt(m) {
                Some(request) => {
                    &&& c2 == CpuState {
                        halted,
                        ime: false,
                        chain: interrupt_chain(c.registers, request),
                        ..c
                    }
                    &&& m2 == MmuState {
                        interrupt_flags: m.interrupt_flags & request.clear_mask(),
                        ..m
                    }
                },
                None => c2 == CpuState { halted, ..c } && m2 == m,
            }
        } else if c.ime_requested {
            c2 == CpuState { halted, ime_requested: false, ime: true, ..c } && m2 == m
        } else {
            c2 == CpuState { halted, ..c } && m2 == m
        }
    } else {
        c2 == c && m2 == m
    }
}

/// One machine cycle of the CPU. A halted CPU only checks for interrupts.
/// Otherwise the next micro-operation fetches an operand byte, and runs once
/// it has them all; a fault ends the cycle with its message; after a
/// micro-operation that ran, the interrupt check follows.
pub open spec fn cycled(c: CpuState, m: MmuState, c2: CpuState, m2: MmuState, r: Result<(), String>) -> bool {
    if c.halted {
        r is Ok && interrupt_step(c, m, c2, m2)
    } else {
        let (done, ins, regs) = fetch_effect(c.registers, m, c.chain[0]);
        if !done {
            &&& r is Ok
            &&& c2 == CpuState { registers: regs, chain: c.chain.update(0, ins), ..c }
            &&& m2 == m
        } else {
            let e = effect(CpuState { registers: regs, ..c }, m, ins);
            match e.next {
                Next::Unknown(_) | Next::BadOpcode(_) => {
                    &&& r matches Err(msg) && result_is(Err(msg), e.next)
                    &&& c2 == e.cpu
                    &&& memory_after(m, e.write, m2)
                },
                _ => {
                    &&& r is Ok
                    &&& exists|mid: MmuState|
                        #![trigger memory_after(m, e.write, mid)]
                        memory_after(m, e.write, mid) && interrupt_step(
                            CpuState { chain: next_chain(c.chain, e.next), ..e.cpu },
                            mid,
                            c2,
                            m2,
                        )
                },
            }
        }
    }
}

pub struct CPU {
    halted: bool,
    ime_requested: bool,
    ime: bool,
    registers: Registers,
    instruction: Instruction,
}

impl View for CPU {
    type V = CpuState;

    closed spec fn view(&self) -> CpuState {
        CpuState {
            halted: self.halted,
            ime_requested: self.ime_requested,
            ime: self.ime,
            registers: self.registers@,
            chain: self.instruction.chain(),
        }
    }
}

impl Default for CPU {
    /// A CPU at power-on: registers cleared, about to fetch the first opcode.
    fn default() -> (r: Self)
        ensures
            r@.wf(),
            r@.registers == (RegisterFile { a: 0, b: 0, c: 0, d: 0, e: 0, f: 0, h: 0, l: 0, s: 0, p: 0, pcl: 0, pch: 0 }),
            r@.chain == seq![fetch_opcode()],
            !r@.halted && !r@.ime && !r@.ime_requested,
    {
        let registers = Registers::default();
        let r = Self {
            halted: false,
            ime_requested: false,
            ime: false,
            instruction: Instruction::new((Op::Dcd, OpArg::FetchU8, OpArg::Non), None),
            registers,
        };
        assert(r@.chain =~= seq![fetch_opcode()]);
        r
    }
}

impl CPU {
    pub fn ime(&self) -> (r: bool)
        ensures
            r == self@.ime,
    {
        self.ime
    }

    pub fn registers(&self) -> (r: &Registers)
        ensures
            r@ == self@.registers,
    {
        &self.registers
    }

    pub fn instruction(&self) -> (r: &Instruction)
        ensures
            r.chain() == self@.chain,
    {
        &self.instruction
    }
}

} // verus!
