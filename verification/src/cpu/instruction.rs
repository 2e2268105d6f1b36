use vstd::prelude::*;
use crate::cpu::op::Op;
use crate::cpu::op_arg::OpArg;

verus! {

/// One micro-operation with its two operands.
pub type Ins = (Op, OpArg, OpArg);

/// A chain of micro-operations: the head runs first, `next` holds the rest.
#[derive(Debug)]
pub struct Instruction {
    ins: Ins,
    next: Option<Box<Instruction>>,
}

/// The micro-operations that an optional chain holds, head first.
pub open spec fn opt_chain(next: Option<Box<Instruction>>) -> Seq<Ins> {
    match next {
        Some(b) => b.chain(),
        None => Seq::empty(),
    }
}

impl Instruction {
    /// The micro-operations of the chain, head first.
    pub closed spec fn chain(&self) -> Seq<Ins>
        decreases self,
    {
        seq![self.ins] + match self.next {
            Some(b) => b.chain(),
            None => Seq::empty(),
        }
    }

    pub broadcast proof fn lemma_chain_nonempty(&self)
        ensures
            #[trigger] self.chain().len() >= 1,
    {
    }

    pub fn new(ins: Ins, next: Option<Box<Instruction>>) -> (r: Self)
        ensures
            r.chain() == seq![ins] + opt_chain(next),
    {
        Self { ins, next }
    }

    pub fn ins(&self) -> (r: Ins)
        ensures
            r == self.chain()[0],
    {
        self.ins
    }

    pub fn set_ins(&mut self, ins: Ins)
        ensures
            final(self).chain() == old(self).chain().update(0, ins),
    {
        self.ins = ins;
        assert(self.chain() =~= old(self).chain().update(0, ins));
    }

    pub fn next(&self) -> (r: &Option<Box<Instruction>>)
        ensures
            opt_chain(*r) == self.chain().drop_first(),
    {
        assert(opt_chain(self.next) =~= self.chain().drop_first());
        &self.next
    }

    pub fn next_mut(&mut self) -> (r: &mut Option<Box<Instruction>>)
        ensures
            opt_chain(*r) == old(self).chain().drop_first(),
            final(self).chain() == seq![old(self).chain()[0]] + opt_chain(*final(r)),
    {
        assert(opt_chain(self.next) =~= self.chain().drop_first());
        &mut self.next
    }
}

impl Default for Instruction {
    fn default() -> (r: Self)
        ensures
            r.chain() == seq![(Op::Nop, OpArg::Non, OpArg::Non)],
    {
        let r = Self { ins: (Op::Nop, OpArg::Non, OpArg::Non), next: None };
        assert(r.chain() =~= seq![(Op::Nop, OpArg::Non, OpArg::Non)]);
        r
    }
}

} // verus!
