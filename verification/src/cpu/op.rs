use vstd::prelude::*;

verus! {

/// Micro-operations that the CPU runs one machine cycle at a time.
#[derive(Debug, Copy, Clone, PartialEq, Eq, Structural)]
pub enum Op {
    Adc,
    Add,
    And,
    Bit,
    Call,
    Ccf,
    Cp,
    Cpl,
    Daa,
    Dcd,
    DcdCB,
    Dec,
    Di,
    Ei,
    EiImm,
    Halt,
    Inc,
    Internal,
    Jp,
    Jr,
    Ld,
    Nop,
    Or,
    Read,
    Res,
    Ret,
    Rl,
    Rla,
    Rlc,
    Rlca,
    Rr,
    Rra,
    Rrc,
    Rrca,
    Rst,
    Sbc,
    Scf,
    SetBit,
    Sla,
    Sra,
    Srl,
    Sub,
    Swap,
    Write,
    Xor,
}

} // verus!
