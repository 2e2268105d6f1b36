use vstd::prelude::*;

verus! {

/// An operand of u16; kept apart from plain integers so that traces read in hexadecimal.
#[derive(Debug, Copy, Clone, PartialEq, Eq, Structural)]
pub struct HexU16(pub u16);

impl From<u16> for HexU16 {
    fn from(from: u16) -> (r: Self)
        ensures
            r.0 == from,
    {
        Self(from)
    }
}

impl vstd::std_specs::convert::FromSpecImpl<u16> for HexU16 {
    open spec fn obeys_from_spec() -> bool {
        true
    }

    open spec fn from_spec(v: u16) -> Self {
        HexU16(v)
    }
}

impl From<HexU16> for u16 {
    fn from(from: HexU16) -> (r: u16)
        ensures
            r == from.0,
    {
        from.0
    }
}

impl vstd::std_specs::convert::FromSpecImpl<HexU16> for u16 {
    open spec fn obeys_from_spec() -> bool {
        true
    }

    open spec fn from_spec(v: HexU16) -> u16 {
        v.0
    }
}

} // verus!
