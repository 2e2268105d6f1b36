use vstd::prelude::*;

verus! {

broadcast use crate::bits::group_bits;

/// The timer control register.
pub struct TAC(u8);

impl View for TAC {
    type V = u8;

    closed spec fn view(&self) -> u8 {
        self.0
    }
}

impl From<u8> for TAC {
    fn from(from: u8) -> (r: Self)
        ensures
            r@ == from,
    {
        TAC(from)
    }
}

impl vstd::std_specs::convert::FromSpecImpl<u8> for TAC {
    open spec fn obeys_from_spec() -> bool {
        true
    }

    closed spec fn from_spec(v: u8) -> Self {
        TAC(v)
    }
}

impl From<TAC> for u8 {
    fn from(from: TAC) -> (r: u8)
        ensures
            r == from@,
    {
        from.0
    }
}

impl vstd::std_specs::convert::FromSpecImpl<TAC> for u8 {
    open spec fn obeys_from_spec() -> bool {
        true
    }

    open spec fn from_spec(v: TAC) -> u8 {
        v@
    }
}

/// The bit of the divider whose falling edge ticks TIMA, by clock select.
pub open spec fn clock_select_bit(tac: u8) -> u8 {
    let bits = tac & 0b11;
    if bits == 0 {
        9
    } else if bits == 1 {
        3
    } else if bits == 2 {
        5
    } else {
        7
    }
}

impl TAC {
    pub fn is_timer_enable(&self) -> (r: bool)
        ensures
            r == ((self@ >> 2) & 1 == 1),
    {
        (self.0 >> 2) & 1 == 1
    }

    pub fn clock_select(&self) -> (r: u8)
        ensures
            r == clock_select_bit(self@),
    {
        let bits = self.0 & 0b11;
        match bits {
            0b00 => 9,
            0b01 => 3,
            0b10 => 5,
            _ => 7,
        }
    }
}

} // verus!
