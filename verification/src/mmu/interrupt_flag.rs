use vstd::prelude::*;

verus! {

broadcast use crate::bits::group_bits;

#[derive(Debug, Copy, Clone, PartialEq, Eq, Structural)]
pub enum InterruptRequest {
    VBlank,
    LCDStat,
    Timer,
    Serial,
    Joypad,
}

impl InterruptRequest {
    /// The bit of the request in IF and IE.
    pub open spec fn bit_index(self) -> u8 {
        match self {
            InterruptRequest::VBlank => 0,
            InterruptRequest::LCDStat => 1,
            InterruptRequest::Timer => 2,
            InterruptRequest::Serial => 3,
            InterruptRequest::Joypad => 4,
        }
    }

    /// The request whose bit is `i`, for `i` below 5.
    pub open spec fn at(i: int) -> InterruptRequest {
        if i == 0 {
            InterruptRequest::VBlank
        } else if i == 1 {
            InterruptRequest::LCDStat
        } else if i == 2 {
            InterruptRequest::Timer
        } else if i == 3 {
            InterruptRequest::Serial
        } else {
            InterruptRequest::Joypad
        }
    }

    /// The single-bit mask of the request in IF and IE.
    pub open spec fn mask(self) -> u8 {
        match self {
            InterruptRequest::VBlank => 0b1,
            InterruptRequest::LCDStat => 0b10,
            InterruptRequest::Timer => 0b100,
            InterruptRequest::Serial => 0b1000,
            InterruptRequest::Joypad => 0b1_0000,
        }
    }

    /// The mask that clears the request's bit: the complement of `mask`.
    pub open spec fn clear_mask(self) -> u8 {
        match self {
            InterruptRequest::VBlank => 0b1111_1110,
            InterruptRequest::LCDStat => 0b1111_1101,
            InterruptRequest::Timer => 0b1111_1011,
            InterruptRequest::Serial => 0b1111_0111,
            InterruptRequest::Joypad => 0b1110_1111,
        }
    }

    pub open spec fn vector(self) -> u16 {
        (0x40 + 8 * self.bit_index()) as u16
    }

    /// The address of the interrupt handler.
    pub fn routine_location(&self) -> (r: u16)
        ensures
            r == self.vector(),
    {
        match self {
            InterruptRequest::VBlank => 0x40,
            InterruptRequest::LCDStat => 0x48,
            InterruptRequest::Timer => 0x50,
            InterruptRequest::Serial => 0x58,
            InterruptRequest::Joypad => 0x60,
        }
    }
}

/// Whether bit `i` of `bits` is set.
pub open spec fn bit_set(bits: u8, i: u8) -> bool {
    (bits >> i) & 1 == 1
}

/// The requests among bits `from` to 4 of `bits` that are set, lowest bit first.
pub open spec fn requests_from(bits: u8, from: int) -> Seq<InterruptRequest>
    decreases 5 - from,
{
    if from < 0 || from >= 5 {
        Seq::empty()
    } else {
        let rest = requests_from(bits, from + 1);
        if bit_set(bits, from as u8) {
            seq![InterruptRequest::at(from)] + rest
        } else {
            rest
        }
    }
}

/// Raising a request sets its bit and clearing it clears its bit; the other
/// requests' bits are left.
pub proof fn lemma_request_bits(bits: u8, request: InterruptRequest, other: InterruptRequest)
    ensures
        bit_set(bits | request.mask(), request.bit_index()),
        !bit_set(bits & request.clear_mask(), request.bit_index()),
        other != request ==> bit_set(bits | request.mask(), other.bit_index()) == bit_set(bits, other.bit_index()),
        other != request ==> bit_set(bits & request.clear_mask(), other.bit_index()) == bit_set(bits, other.bit_index()),
{
    assert(forall|x: u8, i: u8| i < 5 ==> #[trigger] (((x | (1u8 << i)) >> i) & 1) == 1) by (bit_vector);
    assert(forall|x: u8, i: u8| i < 5 ==> #[trigger] (((x & !(1u8 << i)) >> i) & 1) == 0) by (bit_vector);
    assert(forall|x: u8, i: u8, j: u8| i < 5 && j < 5 && i != j ==> #[trigger] (((x | (1u8 << i)) >> j) & 1) == ((x >> j) & 1)) by (bit_vector);
    assert(forall|x: u8, i: u8, j: u8| i < 5 && j < 5 && i != j ==> #[trigger] (((x & !(1u8 << i)) >> j) & 1) == ((x >> j) & 1)) by (bit_vector);
    assert(request.mask() == 1u8 << request.bit_index()) by {
        assert(1u8 << 0u8 == 1 && 1u8 << 1u8 == 2 && 1u8 << 2u8 == 4 && 1u8 << 3u8 == 8 && 1u8 << 4u8 == 16) by (bit_vector);
    }
    assert(request.clear_mask() == !(1u8 << request.bit_index())) by {
        assert(!(1u8 << 0u8) == 0xFE && !(1u8 << 1u8) == 0xFD && !(1u8 << 2u8) == 0xFB && !(1u8 << 3u8) == 0xF7 && !(1u8 << 4u8) == 0xEF) by (bit_vector);
    }
}

/// The interrupt flag (IF) or interrupt enable (IE) register.
pub struct Interrupts(u8);

impl View for Interrupts {
    type V = u8;

    closed spec fn view(&self) -> u8 {
        self.0
    }
}

impl From<u8> for Interrupts {
    fn from(from: u8) -> (r: Self)
        ensures
            r@ == from,
    {
        Interrupts(from)
    }
}

impl vstd::std_specs::convert::FromSpecImpl<u8> for Interrupts {
    open spec fn obeys_from_spec() -> bool {
        true
    }

    closed spec fn from_spec(v: u8) -> Self {
        Interrupts(v)
    }
}

impl From<Interrupts> for u8 {
    fn from(from: Interrupts) -> (r: u8)
        ensures
            r == from@,
    {
        from.0
    }
}

impl vstd::std_specs::convert::FromSpecImpl<Interrupts> for u8 {
    open spec fn obeys_from_spec() -> bool {
        true
    }

    open spec fn from_spec(v: Interrupts) -> u8 {
        v@
    }
}

impl Interrupts {
    /// The requests whose bits are set, highest priority (lowest bit) first.
    pub fn get_request_by_priority(&self) -> (res: Vec<InterruptRequest>)
        ensures
            res@ == requests_from(self@, 0),
    {
        let mut res = vec![];
        let bits = self.0;
        if bits & 1 == 1 {
            res.push(InterruptRequest::VBlank)
        }
        if (bits >> 1) & 1 == 1 {
            res.push(InterruptRequest::LCDStat)
        }
        if (bits >> 2) & 1 == 1 {
            res.push(InterruptRequest::Timer)
        }
        if (bits >> 3) & 1 == 1 {
            res.push(InterruptRequest::Serial)
        }
        if (bits >> 4) & 1 == 1 {
            res.push(InterruptRequest::Joypad)
        }
        proof {
            assert(bits >> 0u8 == bits) by (bit_vector);
            reveal_with_fuel(requests_from, 6);
        }
        assert(res@ =~= requests_from(bits, 0));
        res
    }

    pub fn enable_request(&mut self, request: InterruptRequest)
        ensures
            final(self)@ == old(self)@ | request.mask(),
    {
        match request {
            InterruptRequest::VBlank => self.0 = self.0 | 0b1,
            InterruptRequest::LCDStat => self.0 = self.0 | 0b10,
            InterruptRequest::Timer => self.0 = self.0 | 0b100,
            InterruptRequest::Serial => self.0 = self.0 | 0b1000,
            InterruptRequest::Joypad => self.0 = self.0 | 0b1_0000,
        }
    }

    pub fn is_enable(&self, request: InterruptRequest) -> (r: bool)
        ensures
            r == bit_set(self@, request.bit_index()),
    {
        let bits = self.0;
        match request {
            InterruptRequest::VBlank => (bits >> 0) & 1 == 1,
            InterruptRequest::LCDStat => (bits >> 1) & 1 == 1,
            InterruptRequest::Timer => (bits >> 2) & 1 == 1,
            InterruptRequest::Serial => (bits >> 3) & 1 == 1,
            InterruptRequest::Joypad => (bits >> 4) & 1 == 1,
        }
    }

    pub fn disable_request(&mut self, request: InterruptRequest)
        ensures
            final(self)@ == old(self)@ & request.clear_mask(),
    {
        match request {
            InterruptRequest::VBlank => self.0 = self.0 & 0b1111_1110,
            InterruptRequest::LCDStat => self.0 = self.0 & 0b1111_1101,
            InterruptRequest::Timer => self.0 = self.0 & 0b1111_1011,
            InterruptRequest::Serial => self.0 = self.0 & 0b1111_0111,
            InterruptRequest::Joypad => self.0 = self.0 & 0b1110_1111,
        }
    }
}

} // verus!
