use vstd::prelude::*;

verus! {

/// Branch conditions tested against the Z and C flags.
#[derive(Debug, Copy, Clone, PartialEq, Eq, Structural)]
pub enum Condition {
    Z,
    NZ,
    C,
    NC,
}

} // verus!
