use vstd::prelude::*;

verus! {

/// The size of a bank of work RAM.
pub const WRAM_SIZE: usize = 0x1fff;

/// A bank of work RAM.
pub struct WRAM(pub [u8; 0x1fff]);

impl Default for WRAM {
    fn default() -> (r: Self)
        ensures
            forall|i: int| 0 <= i < WRAM_SIZE ==> r.0@[i] == 0,
    {
        Self([0; 0x1fff])
    }
}

} // verus!
