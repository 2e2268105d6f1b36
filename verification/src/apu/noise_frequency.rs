use vstd::prelude::*;

verus! {

broadcast use crate::bits::group_bits;

/// The divisor selected by the low 3 bits of NR43.
pub open spec fn noise_divisor(code: u8) -> u8 {
    if code == 0 {
        8
    } else {
        (16 * code) as u8
    }
}

/// The clock of the noise channel.
pub struct NoiseFrequency {
    pub nr43: u8,
    pub frequency_timer: u16,
}

impl Default for NoiseFrequency {
    fn default() -> (r: Self)
        ensures
            r == (NoiseFrequency { nr43: 0, frequency_timer: 0 }),
    {
        Self { nr43: 0, frequency_timer: 0 }
    }
}

impl NoiseFrequency {
    pub open spec fn spec_divisor(self) -> u8 {
        noise_divisor(self.nr43 & 0b111)
    }

    pub open spec fn spec_shift(self) -> u8 {
        (self.nr43 >> 4) & 0b1111
    }

    /// The divisor shifted left by the clock shift, truncated to 16 bits.
    pub open spec fn spec_initial_frequency(self) -> u16 {
        (self.spec_divisor() as u16) << (self.spec_shift() as u16)
    }

    /// One tick: a period of 0 holds the timer still; otherwise the timer counts
    /// down (wrapping) and reloads on reaching 0, which is reported.
    pub open spec fn spec_cycle(self) -> (NoiseFrequency, bool) {
        if self.spec_initial_frequency() == 0 {
            (self, false)
        } else {
            let t = self.frequency_timer.wrapping_sub(1);
            if t == 0 {
                (NoiseFrequency { frequency_timer: self.spec_initial_frequency(), ..self }, true)
            } else {
                (NoiseFrequency { frequency_timer: t, ..self }, false)
            }
        }
    }

    pub fn restart(&mut self)
        ensures
            *final(self) == (NoiseFrequency { frequency_timer: old(self).spec_initial_frequency(), ..*old(self) }),
    {
        self.frequency_timer = self.initial_frequency();
    }

    pub fn set_nr43(&mut self, nr43: u8)
        ensures
            *final(self) == (NoiseFrequency { nr43, ..*old(self) }),
    {
        self.nr43 = nr43;
    }

    pub fn initial_frequency(&self) -> (r: u16)
        ensures
            r == self.spec_initial_frequency(),
    {
        (self.divisor() as u16) << (self.shift() as u16)
    }

    fn divisor(&self) -> (r: u8)
        ensures
            r == self.spec_divisor(),
    {
        let bits = self.nr43 & 0b111;
        match bits {
            0 => 8,
            1 => 16,
            2 => 32,
            3 => 48,
            4 => 64,
            5 => 80,
            6 => 96,
            _ => 112,
        }
    }

    fn shift(&self) -> (r: u8)
        ensures
            r == self.spec_shift(),
            r < 16,
    {
        (self.nr43 >> 4) & 0b1111
    }

    pub fn is_width_mode(&self) -> (r: bool)
        ensures
            r == ((self.nr43 >> 3) & 1 == 1),
    {
        (self.nr43 >> 3) & 1 == 1
    }

    pub fn cycle(&mut self) -> (r: bool)
        ensures
            (*final(self), r) == old(self).spec_cycle(),
    {
        if self.initial_frequency() == 0 {
            return false;
        }
        self.frequency_timer = self.frequency_timer.wrapping_sub(1);
        if self.frequency_timer == 0 {
            self.restart();
            true
        } else {
            false
        }
    }
}


/// `k` ticks of the noise clock: the unit after them, and how many of them
/// fired.
pub open spec fn noise_ticks(f: NoiseFrequency, k: nat) -> (NoiseFrequency, nat)
    decreases k,
{
    if k == 0 {
        (f, 0)
    } else {
        let (g, n) = noise_ticks(f, (k - 1) as nat);
        let (h, fired) = g.spec_cycle();
        (h, if fired { n + 1 } else { n })
    }
}

/// From a reload, with a period other than 0, the noise clock fires once
/// every period (the divisor shifted by the clock shift): after `k` ticks it
/// has fired `k / period` times and has `period - k % period` ticks to go.
pub proof fn lemma_noise_period(f: NoiseFrequency, k: nat)
    requires
        f.spec_initial_frequency() != 0,
        f.frequency_timer == f.spec_initial_frequency(),
    ensures
        noise_ticks(f, k) == (NoiseFrequency {
            frequency_timer: (f.spec_initial_frequency() - (k as int) % (f.spec_initial_frequency() as int)) as u16,
            ..f
        }, k / (f.spec_initial_frequency() as nat)),
    decreases k,
{
    let p = f.spec_initial_frequency() as int;
    if k == 0 {
        assert(0int % p == 0 && 0int / p == 0) by (nonlinear_arith) requires p > 0;
    } else {
        lemma_noise_period(f, (k - 1) as nat);
        let x = (k - 1) as int;
        let q = x / p;
        let r = x % p;
        vstd::arithmetic::div_mod::lemma_fundamental_div_mod(x, p);
        assert(0 <= r < p) by (nonlinear_arith) requires p > 0, r == x % p;
        assert(x == q * p + r) by (nonlinear_arith) requires x == p * q + r;
        assert((q + 1) * p == q * p + p) by (nonlinear_arith);
        if r == p - 1 {
            vstd::arithmetic::div_mod::lemma_fundamental_div_mod_converse(k as int, p, q + 1, 0int);
        } else {
            vstd::arithmetic::div_mod::lemma_fundamental_div_mod_converse(k as int, p, q, r + 1);
        }
    }
}

} // verus!
