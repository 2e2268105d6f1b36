use vstd::prelude::*;

verus! {

broadcast use crate::bits::group_bits;

/// The 11-bit frequency of channels 1 to 3 and its countdown timer.
pub struct Frequency {
    pub nrx3: u8,
    pub nrx4: u8,
    pub initial_frequency: u16,
    pub frequency_timer: u16,
}

impl Default for Frequency {
    fn default() -> (r: Self)
        ensures
            r == (Frequency { nrx3: 0, nrx4: 0, initial_frequency: 0, frequency_timer: 0 }),
    {
        Self { nrx3: 0, nrx4: 0, initial_frequency: 0, frequency_timer: 0 }
    }
}

/// The 11-bit frequency held in the low 3 bits of NRx4 and in NRx3.
pub open spec fn frequency_of(nrx3: u8, nrx4: u8) -> u16 {
    ((nrx4 & 0b111) as int * 256 + nrx3 as int) as u16
}

impl Frequency {
    /// The frequency fits in 11 bits.
    pub open spec fn wf(self) -> bool {
        self.initial_frequency < 2048
    }

    /// The timer reload: four ticks per step of the remaining period.
    pub open spec fn period(self) -> u16 {
        ((2048 - self.initial_frequency) * 4) as u16
    }

    /// One tick: a frequency of 0 holds the timer still; otherwise the timer
    /// counts down (wrapping) and reloads on reaching 0, which is reported.
    pub open spec fn spec_cycle(self) -> (Frequency, bool) {
        if self.initial_frequency == 0 {
            (self, false)
        } else {
            let t = self.frequency_timer.wrapping_sub(1);
            if t == 0 {
                (Frequency { frequency_timer: self.period(), ..self }, true)
            } else {
                (Frequency { frequency_timer: t, ..self }, false)
            }
        }
    }

    pub fn restart(&mut self)
        requires
            old(self).wf(),
        ensures
            *final(self) == (Frequency { frequency_timer: old(self).period(), ..*old(self) }),
    {
        self.frequency_timer = (2048 - self.initial_frequency) * 4;
    }

    pub fn set_nrx3(&mut self, nrx3: u8)
        ensures
            *final(self) == (Frequency {
                nrx3,
                initial_frequency: frequency_of(nrx3, old(self).nrx4),
                ..*old(self)
            }),
            final(self).wf(),
    {
        self.nrx3 = nrx3;
        self.calculate_initial_frequency();
    }

    pub fn set_nrx4(&mut self, nrx4: u8)
        ensures
            *final(self) == (Frequency {
                nrx4,
                initial_frequency: frequency_of(old(self).nrx3, nrx4),
                ..*old(self)
            }),
            final(self).wf(),
    {
        self.nrx4 = nrx4;
        self.calculate_initial_frequency();
    }

    pub fn calculate_initial_frequency(&mut self)
        ensures
            *final(self) == (Frequency {
                initial_frequency: frequency_of(old(self).nrx3, old(self).nrx4),
                ..*old(self)
            }),
            final(self).wf(),
    {
        let hi = self.nrx4 & 0b111;
        let lo = self.nrx3;
        let f = ((hi as u16) << 8) | (lo as u16);
        assert(f == (hi as int * 256 + lo as int) as u16 && f < 2048) by (bit_vector)
            requires
                f == ((hi as u16) << 8) | (lo as u16),
                hi <= 7,
        ;
        self.initial_frequency = f;
    }

    pub fn cycle(&mut self) -> (r: bool)
        requires
            old(self).wf(),
        ensures
            (*final(self), r) == old(self).spec_cycle(),
            final(self).wf(),
    {
        if self.initial_frequency == 0 {
            return false;
        }
        self.frequency_timer = self.frequency_timer.wrapping_sub(1);
        if self.frequency_timer == 0 {
            self.restart();
            true
        } else {
            false
        }
    }

    pub fn initial_frequency(&self) -> (r: u16)
        ensures
            r == self.initial_frequency,
    {
        self.initial_frequency
    }

    pub fn set_new_frequency(&mut self, new_frequency: u16)
        requires
            new_frequency < 2048,
        ensures
            *final(self) == (Frequency { initial_frequency: new_frequency, ..*old(self) }),
    {
        self.initial_frequency = new_frequency;
    }
}


/// `k` ticks of the frequency timer: the unit after them, and how many of
/// them fired.
pub open spec fn ticks(f: Frequency, k: nat) -> (Frequency, nat)
    decreases k,
{
    if k == 0 {
        (f, 0)
    } else {
        let (g, n) = ticks(f, (k - 1) as nat);
        let (h, fired) = g.spec_cycle();
        (h, if fired { n + 1 } else { n })
    }
}

/// From a restart, with a frequency other than 0, the timer fires once every
/// (2048 - frequency) * 4 ticks: after `k` ticks it has fired `k / period`
/// times and has `period - k % period` ticks to go.
pub proof fn lemma_frequency_period(f: Frequency, k: nat)
    requires
        f.wf(),
        f.initial_frequency != 0,
        f.frequency_timer == f.period(),
    ensures
        ticks(f, k) == (Frequency { frequency_timer: (f.period() - (k as int) % (f.period() as int)) as u16, ..f }, k / (f.period() as nat)),
    decreases k,
{
    let p = f.period() as int;
    assert(0 < p <= 8188);
    if k == 0 {
        assert(0int % p == 0 && 0int / p == 0) by (nonlinear_arith) requires p > 0;
    } else {
        lemma_frequency_period(f, (k - 1) as nat);
        let x = (k - 1) as int;
        let q = x / p;
        let r = x % p;
        vstd::arithmetic::div_mod::lemma_fundamental_div_mod(x, p);
        assert(0 <= r < p) by (nonlinear_arith) requires p > 0, r == x % p;
        assert(x == q * p + r) by (nonlinear_arith) requires x == p * q + r;
        assert((q + 1) * p == q * p + p) by (nonlinear_arith);
        if r == p - 1 {
            vstd::arithmetic::div_mod::lemma_fundamental_div_mod_converse(k as int, p, q + 1, 0int);
        } else {
            vstd::arithmetic::div_mod::lemma_fundamental_div_mod_converse(k as int, p, q, r + 1);
        }
    }
}

} // verus!
