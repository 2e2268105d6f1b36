use vstd::prelude::*;

verus! {

/// An operand of u8; kept apart from plain integers so that traces read in hexadecimal.
#[derive(Debug, Copy, Clone, PartialEq, Eq, Structural)]
pub struct HexU8(pub u8);

impl From<u8> for HexU8 {
    fn from(from: u8) -> (r: Self)
        ensures
            r.0 == from,
    {
        Self(from)
    }
}

impl vstd::std_specs::convert::FromSpecImpl<u8> for HexU8 {
    open spec fn obeys_from_spec() -> bool {
        true
    }

    open spec fn from_spec(v: u8) -> Self {
        HexU8(v)
    }
}

impl From<HexU8> for u8 {
    fn from(from: HexU8) -> (r: u8)
        ensures
            r == from.0,
    {
        from.0
    }
}

impl vstd::std_specs::convert::FromSpecImpl<HexU8> for u8 {
    open spec fn obeys_from_spec() -> bool {
        true
    }

    open spec fn from_spec(v: HexU8) -> u8 {
        v.0
    }
}

} // verus!
