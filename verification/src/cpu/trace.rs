use vstd::prelude::*;
use vstd::string::StringExecFns;
use crate::cpu::condition::Condition;
use crate::cpu::hex_u16::HexU16;
use crate::cpu::hex_u8::HexU8;
use crate::cpu::instruction::Ins;
use crate::cpu::op::Op;
use crate::cpu::op_arg::OpArg;
use crate::cpu::registers::{R16, R8};
use crate::text::{hex_byte_text, hex_word_text, i8_text, push_hex_byte, push_hex_word, push_i8};

verus! {

/// The name of a micro-operation; `SetBit` reads as `Set`.
pub open spec fn op_text(v: Op) -> Seq<char> {
    match v {
        Op::Adc => "Adc"@,
        Op::Add => "Add"@,
        Op::And => "And"@,
        Op::Bit => "Bit"@,
        Op::Call => "Call"@,
        Op::Ccf => "Ccf"@,
        Op::Cp => "Cp"@,
        Op::Cpl => "Cpl"@,
        Op::Daa => "Daa"@,
        Op::Dcd => "Dcd"@,
        Op::DcdCB => "DcdCB"@,
        Op::Dec => "Dec"@,
        Op::Di => "Di"@,
        Op::Ei => "Ei"@,
        Op::EiImm => "EiImm"@,
        Op::Halt => "Halt"@,
        Op::Inc => "Inc"@,
        Op::Internal => "Internal"@,
        Op::Jp => "Jp"@,
        Op::Jr => "Jr"@,
        Op::Ld => "Ld"@,
        Op::Nop => "Nop"@,
        Op::Or => "Or"@,
        Op::Read => "Read"@,
        Op::Res => "Res"@,
        Op::Ret => "Ret"@,
        Op::Rl => "Rl"@,
        Op::Rla => "Rla"@,
        Op::Rlc => "Rlc"@,
        Op::Rlca => "Rlca"@,
        Op::Rr => "Rr"@,
        Op::Rra => "Rra"@,
        Op::Rrc => "Rrc"@,
        Op::Rrca => "Rrca"@,
        Op::Rst => "Rst"@,
        Op::Sbc => "Sbc"@,
        Op::Scf => "Scf"@,
        Op::SetBit => "Set"@,
        Op::Sla => "Sla"@,
        Op::Sra => "Sra"@,
        Op::Srl => "Srl"@,
        Op::Sub => "Sub"@,
        Op::Swap => "Swap"@,
        Op::Write => "Write"@,
        Op::Xor => "Xor"@,
    }
}

impl Op {
    /// The name of the value, as `op_text` gives it.
    pub fn text(&self) -> (r: &'static str)
        ensures
            r@ == op_text(*self),
    {
        match self {
            Op::Adc => "Adc",
            Op::Add => "Add",
            Op::And => "And",
            Op::Bit => "Bit",
            Op::Call => "Call",
            Op::Ccf => "Ccf",
            Op::Cp => "Cp",
            Op::Cpl => "Cpl",
            Op::Daa => "Daa",
            Op::Dcd => "Dcd",
            Op::DcdCB => "DcdCB",
            Op::Dec => "Dec",
            Op::Di => "Di",
            Op::Ei => "Ei",
            Op::EiImm => "EiImm",
            Op::Halt => "Halt",
            Op::Inc => "Inc",
            Op::Internal => "Internal",
            Op::Jp => "Jp",
            Op::Jr => "Jr",
            Op::Ld => "Ld",
            Op::Nop => "Nop",
            Op::Or => "Or",
            Op::Read => "Read",
            Op::Res => "Res",
            Op::Ret => "Ret",
            Op::Rl => "Rl",
            Op::Rla => "Rla",
            Op::Rlc => "Rlc",
            Op::Rlca => "Rlca",
            Op::Rr => "Rr",
            Op::Rra => "Rra",
            Op::Rrc => "Rrc",
            Op::Rrca => "Rrca",
            Op::Rst => "Rst",
            Op::Sbc => "Sbc",
            Op::Scf => "Scf",
            Op::SetBit => "Set",
            Op::Sla => "Sla",
            Op::Sra => "Sra",
            Op::Srl => "Srl",
            Op::Sub => "Sub",
            Op::Swap => "Swap",
            Op::Write => "Write",
            Op::Xor => "Xor",
        }
    }
}

/// The name of an 8-bit register.
pub open spec fn r8_text(v: R8) -> Seq<char> {
    match v {
        R8::A => "A"@,
        R8::B => "B"@,
        R8::C => "C"@,
        R8::D => "D"@,
        R8::E => "E"@,
        R8::F => "F"@,
        R8::H => "H"@,
        R8::L => "L"@,
        R8::S => "S"@,
        R8::P => "P"@,
        R8::PCl => "PCl"@,
        R8::PCh => "PCh"@,
    }
}

impl R8 {
    /// The name of the value, as `r8_text` gives it.
    pub fn text(&self) -> (r: &'static str)
        ensures
            r@ == r8_text(*self),
    {
        match self {
            R8::A => "A",
            R8::B => "B",
            R8::C => "C",
            R8::D => "D",
            R8::E => "E",
            R8::F => "F",
            R8::H => "H",
            R8::L => "L",
            R8::S => "S",
            R8::P => "P",
            R8::PCl => "PCl",
            R8::PCh => "PCh",
        }
    }
}

/// The name of a register pair.
pub open spec fn r16_text(v: R16) -> Seq<char> {
    match v {
        R16::AF => "AF"@,
        R16::BC => "BC"@,
        R16::DE => "DE"@,
        R16::HL => "HL"@,
        R16::SP => "SP"@,
        R16::PC => "PC"@,
    }
}

impl R16 {
    /// The name of the value, as `r16_text` gives it.
    pub fn text(&self) -> (r: &'static str)
        ensures
            r@ == r16_text(*self),
    {
        match self {
            R16::AF => "AF",
            R16::BC => "BC",
            R16::DE => "DE",
            R16::HL => "HL",
            R16::SP => "SP",
            R16::PC => "PC",
        }
    }
}

/// The name of a jump condition.
pub open spec fn condition_text(v: Condition) -> Seq<char> {
    match v {
        Condition::Z => "Z"@,
        Condition::NZ => "NZ"@,
        Condition::C => "C"@,
        Condition::NC => "NC"@,
    }
}

impl Condition {
    /// The name of the value, as `condition_text` gives it.
    pub fn text(&self) -> (r: &'static str)
        ensures
            r@ == condition_text(*self),
    {
        match self {
            Condition::Z => "Z",
            Condition::NZ => "NZ",
            Condition::C => "C",
            Condition::NC => "NC",
        }
    }
}

/// A byte operand as `0x` and two hexadecimal digits.
impl HexU8 {
    pub fn text(&self) -> (r: String)
        ensures
            r@ == hex_byte_text(self.0),
    {
        let mut s = String::new();
        push_hex_byte(&mut s, self.0);
        assert(s@ =~= hex_byte_text(self.0));
        s
    }
}

/// A word operand as `0x` and four hexadecimal digits.
impl HexU16 {
    pub fn text(&self) -> (r: String)
        ensures
            r@ == hex_word_text(self.0),
    {
        let mut s = String::new();
        push_hex_word(&mut s, self.0);
        assert(s@ =~= hex_word_text(self.0));
        s
    }
}

/// An operand byte that may still be missing: `Some(0x..)` or `None`.
pub open spec fn opt_hex_text(o: Option<HexU8>) -> Seq<char> {
    match o {
        Some(h) => "Some("@ + hex_byte_text(h.0) + ")"@,
        None => "None"@,
    }
}

fn push_opt_hex(s: &mut String, o: Option<HexU8>)
    ensures
        final(s)@ == old(s)@ + opt_hex_text(o),
{
    match o {
        Some(h) => {
            s.append("Some(");
            push_hex_byte(s, h.0);
            s.append(")");
            assert(final(s)@ =~= old(s)@ + opt_hex_text(o));
        },
        None => {
            s.append("None");
        },
    }
}

/// An operand as its derived-style debug text: the variant's name, then its
/// fields in brackets; bytes and words in hexadecimal, signed bytes in decimal.
pub open spec fn arg_text(a: OpArg) -> Seq<char> {
    match a {
        OpArg::FetchU8 => "FetchU8"@,
        OpArg::FetchInAddrU8 => "FetchInAddrU8"@,
        OpArg::InAddrU8(x) => "InAddrU8("@ + hex_byte_text(x.0) + ")"@,
        OpArg::Reg8(x) => "Reg8("@ + r8_text(x) + ")"@,
        OpArg::Reg16(x) => "Reg16("@ + r16_text(x) + ")"@,
        OpArg::AddrReg16(x) => "AddrReg16("@ + r16_text(x) + ")"@,
        OpArg::InAddrReg8(x) => "InAddrReg8("@ + r8_text(x) + ")"@,
        OpArg::AddrU16(x) => "AddrU16("@ + hex_word_text(x.0) + ")"@,
        OpArg::FetchAddrU16(x, y) => "FetchAddrU16("@ + opt_hex_text(x) + ", "@ + opt_hex_text(y) + ")"@,
        OpArg::FetchI8 => "FetchI8"@,
        OpArg::FetchSPI8 => "FetchSPI8"@,
        OpArg::SPI8(x) => "SPI8("@ + i8_text(x) + ")"@,
        OpArg::AddrReg16d(x) => "AddrReg16d("@ + r16_text(x) + ")"@,
        OpArg::AddrReg16i(x) => "AddrReg16i("@ + r16_text(x) + ")"@,
        OpArg::AddrRegd16(x) => "AddrRegd16("@ + r16_text(x) + ")"@,
        OpArg::CC(x) => "CC("@ + condition_text(x) + ")"@,
        OpArg::U8(x) => "U8("@ + hex_byte_text(x.0) + ")"@,
        OpArg::I8(x) => "I8("@ + i8_text(x) + ")"@,
        OpArg::FetchU16(x, y) => "FetchU16("@ + opt_hex_text(x) + ", "@ + opt_hex_text(y) + ")"@,
        OpArg::U16(x) => "U16("@ + hex_word_text(x.0) + ")"@,
        OpArg::Non => "Non"@,
    }
}

impl OpArg {
    /// The operand's text, as `arg_text` gives it.
    pub fn text(&self) -> (r: String)
        ensures
            r@ == arg_text(*self),
    {
        match *self {
            OpArg::FetchU8 => String::from_str("FetchU8"),
            OpArg::FetchInAddrU8 => String::from_str("FetchInAddrU8"),
            OpArg::InAddrU8(x) => {
                let mut s = String::from_str("InAddrU8(");
                push_hex_byte(&mut s, x.0);
                s.append(")");
                s
            },
            OpArg::Reg8(x) => {
                let mut s = String::from_str("Reg8(");
                s.append(x.text());
                s.append(")");
                s
            },
            OpArg::Reg16(x) => {
                let mut s = String::from_str("Reg16(");
                s.append(x.text());
                s.append(")");
                s
            },
            OpArg::AddrReg16(x) => {
                let mut s = String::from_str("AddrReg16(");
                s.append(x.text());
                s.append(")");
                s
            },
            OpArg::InAddrReg8(x) => {
                let mut s = String::from_str("InAddrReg8(");
                s.append(x.text());
                s.append(")");
                s
            },
            OpArg::AddrU16(x) => {
                let mut s = String::from_str("AddrU16(");
                push_hex_word(&mut s, x.0);
                s.append(")");
                s
            },
            OpArg::FetchAddrU16(x, y) => {
                let mut s = String::from_str("FetchAddrU16(");
                push_opt_hex(&mut s, x);
                s.append(", ");
                push_opt_hex(&mut s, y);
                s.append(")");
                s
            },
            OpArg::FetchI8 => String::from_str("FetchI8"),
            OpArg::FetchSPI8 => String::from_str("FetchSPI8"),
            OpArg::SPI8(x) => {
                let mut s = String::from_str("SPI8(");
                push_i8(&mut s, x);
                s.append(")");
                s
            },
            OpArg::AddrReg16d(x) => {
                let mut s = String::from_str("AddrReg16d(");
                s.append(x.text());
                s.append(")");
                s
            },
            OpArg::AddrReg16i(x) => {
                let mut s = String::from_str("AddrReg16i(");
                s.append(x.text());
                s.append(")");
                s
            },
            OpArg::AddrRegd16(x) => {
                let mut s = String::from_str("AddrRegd16(");
                s.append(x.text());
                s.append(")");
                s
            },
            OpArg::CC(x) => {
                let mut s = String::from_str("CC(");
                s.append(x.text());
                s.append(")");
                s
            },
            OpArg::U8(x) => {
                let mut s = String::from_str("U8(");
                push_hex_byte(&mut s, x.0);
                s.append(")");
                s
            },
            OpArg::I8(x) => {
                let mut s = String::from_str("I8(");
                push_i8(&mut s, x);
                s.append(")");
                s
            },
            OpArg::FetchU16(x, y) => {
                let mut s = String::from_str("FetchU16(");
                push_opt_hex(&mut s, x);
                s.append(", ");
                push_opt_hex(&mut s, y);
                s.append(")");
                s
            },
            OpArg::U16(x) => {
                let mut s = String::from_str("U16(");
                push_hex_word(&mut s, x.0);
                s.append(")");
                s
            },
            OpArg::Non => String::from_str("Non"),
        }
    }
}

/// The message for a micro-operation that the CPU does not run: the
/// operation and its two operands after `[EXE] Unknown instruction `.
#[verifier::opaque]
pub open spec fn unknown_instruction_text(ins: Ins) -> Seq<char> {
    "[EXE] Unknown instruction "@ + op_text(ins.0) + " "@ + arg_text(ins.1) + " "@ + arg_text(ins.2)
}

/// Builds `unknown_instruction_text`.
pub fn unknown_instruction(ins: Ins) -> (r: String)
    ensures
        r@ == unknown_instruction_text(ins),
{
    let mut s = String::from_str("[EXE] Unknown instruction ");
    s.append(ins.0.text());
    s.append(" ");
    let a = ins.1.text();
    s.append(a.as_str());
    s.append(" ");
    let b = ins.2.text();
    s.append(b.as_str());
    proof {
        reveal(unknown_instruction_text);
    }
    s
}

} // verus!
