use vstd::prelude::*;

verus! {

/// The background palette register: four 2-bit shades, colour 0 in the low bits.
pub struct BGP(u8);

impl View for BGP {
    type V = u8;

    closed spec fn view(&self) -> u8 {
        self.0
    }
}

impl From<u8> for BGP {
    fn from(from: u8) -> (r: Self)
        ensures
            r@ == from,
    {
        BGP(from)
    }
}

impl vstd::std_specs::convert::FromSpecImpl<u8> for BGP {
    open spec fn obeys_from_spec() -> bool {
        true
    }

    closed spec fn from_spec(v: u8) -> Self {
        BGP(v)
    }
}

impl From<BGP> for u8 {
    fn from(from: BGP) -> (r: u8)
        ensures
            r == from@,
    {
        from.0
    }
}

impl vstd::std_specs::convert::FromSpecImpl<BGP> for u8 {
    open spec fn obeys_from_spec() -> bool {
        true
    }

    open spec fn from_spec(v: BGP) -> u8 {
        v@
    }
}

impl BGP {
    /// The shade of colour `index`.
    pub fn get_color(&self, index: u8) -> (r: u8)
        requires
            index < 4,
        ensures
            r == (self@ >> (2 * index)) & 0b11,
    {
        match index {
            0 => (self.0 >> 0) & 0b11,
            1 => (self.0 >> 2) & 0b11,
            2 => (self.0 >> 4) & 0b11,
            _ => (self.0 >> 6) & 0b11,
        }
    }
}

/// An object palette register: like the background palette, but colour 0 is transparent.
pub struct OBP(u8);

impl View for OBP {
    type V = u8;

    closed spec fn view(&self) -> u8 {
        self.0
    }
}

impl From<u8> for OBP {
    fn from(from: u8) -> (r: Self)
        ensures
            r@ == from,
    {
        OBP(from)
    }
}

impl vstd::std_specs::convert::FromSpecImpl<u8> for OBP {
    open spec fn obeys_from_spec() -> bool {
        true
    }

    closed spec fn from_spec(v: u8) -> Self {
        OBP(v)
    }
}

impl From<OBP> for u8 {
    fn from(from: OBP) -> (r: u8)
        ensures
            r == from@,
    {
        from.0
    }
}

impl vstd::std_specs::convert::FromSpecImpl<OBP> for u8 {
    open spec fn obeys_from_spec() -> bool {
        true
    }

    open spec fn from_spec(v: OBP) -> u8 {
        v@
    }
}

impl OBP {
    /// The shade of colour `index`; colour 0 always reads as 0.
    pub fn get_color(&self, index: u8) -> (r: u8)
        requires
            index < 4,
        ensures
            r == if index == 0 { 0 } else { (self@ >> (2 * index)) & 0b11 },
    {
        match index {
            0 => 0,
            1 => (self.0 >> 2) & 0b11,
            2 => (self.0 >> 4) & 0b11,
            _ => (self.0 >> 6) & 0b11,
        }
    }
}

} // verus!
