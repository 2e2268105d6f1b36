use vstd::prelude::*;

verus! {

/// The four condition flags held in the upper nibble of register F.
#[derive(Debug, Copy, Clone, PartialEq, Eq, Structural)]
pub enum FFlag {
    Z,
    N,
    H,
    C,
}

impl FFlag {
    /// Bit mask of the flag inside register F.
    pub open spec fn mask(self) -> u8 {
        match self {
            FFlag::Z => 0x80,
            FFlag::N => 0x40,
            FFlag::H => 0x20,
            FFlag::C => 0x10,
        }
    }
}

} // verus!
