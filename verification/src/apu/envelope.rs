use vstd::prelude::*;

verus! {

broadcast use crate::bits::group_bits;

/// The volume envelope of channels 1, 2 and 4.
pub struct Envelope {
    pub nrx2: u8,
    pub period_timer: u8,
    pub volume: u8,
}

impl From<u8> for Envelope {
    fn from(from: u8) -> (r: Self)
        ensures
            r == Envelope::spec_new(from),
    {
        Envelope::new(from)
    }
}

impl vstd::std_specs::convert::FromSpecImpl<u8> for Envelope {
    open spec fn obeys_from_spec() -> bool {
        true
    }

    open spec fn from_spec(v: u8) -> Self {
        Envelope::spec_new(v)
    }
}

impl From<Envelope> for u8 {
    fn from(from: Envelope) -> (r: u8)
        ensures
            r == from.nrx2,
    {
        from.nrx2
    }
}

impl vstd::std_specs::convert::FromSpecImpl<Envelope> for u8 {
    open spec fn obeys_from_spec() -> bool {
        true
    }

    open spec fn from_spec(v: Envelope) -> u8 {
        v.nrx2
    }
}

impl Envelope {
    pub open spec fn spec_new(nrx2: u8) -> Envelope {
        Envelope { nrx2, period_timer: 0, volume: 0 }
    }

    /// The volume stays within 4 bits.
    pub open spec fn wf(self) -> bool {
        self.volume <= 15
    }

    pub open spec fn spec_initial_volume(self) -> u8 {
        (self.nrx2 >> 4) & 0b1111
    }

    pub open spec fn spec_is_decrease(self) -> bool {
        (self.nrx2 >> 3) & 1 == 0
    }

    pub open spec fn spec_sweep(self) -> u8 {
        self.nrx2 & 0b111
    }

    /// One tick of the envelope clock: when the period is 0 nothing moves;
    /// otherwise the period timer counts down and, when it runs out (or was
    /// already 0), reloads and the volume steps up to 15 or down to 0.
    pub open spec fn spec_clock(self) -> Envelope {
        if self.spec_sweep() == 0 {
            self
        } else {
            let timer = if self.period_timer > 0 {
                (self.period_timer - 1) as u8
            } else {
                0u8
            };
            if self.period_timer > 0 && timer != 0 {
                Envelope { period_timer: timer, ..self }
            } else {
                let reloaded = if self.period_timer > 0 { self.spec_sweep() } else { 0u8 };
                let volume = if self.volume < 0xF && !self.spec_is_decrease() {
                    (self.volume + 1) as u8
                } else if self.volume > 0 && self.spec_is_decrease() {
                    (self.volume - 1) as u8
                } else {
                    self.volume
                };
                Envelope { period_timer: reloaded, volume, ..self }
            }
        }
    }

    fn new(nrx2: u8) -> (r: Self)
        ensures
            r == Envelope::spec_new(nrx2),
    {
        Self { nrx2, period_timer: 0, volume: 0 }
    }

    pub fn restart(&mut self)
        ensures
            *final(self) == (Envelope {
                volume: old(self).spec_initial_volume(),
                period_timer: old(self).spec_sweep(),
                ..*old(self)
            }),
            final(self).wf(),
    {
        self.volume = self.initial_volume();
        self.period_timer = self.sweep();
    }

    pub fn set(&mut self, nrx2: u8)
        ensures
            *final(self) == (Envelope { nrx2, ..*old(self) }),
    {
        self.nrx2 = nrx2;
    }

    pub fn clock(&mut self)
        requires
            old(self).wf(),
        ensures
            *final(self) == old(self).spec_clock(),
            final(self).wf(),
    {
        if self.sweep() == 0 {
            return ;
        }
        if self.period_timer > 0 {
            self.period_timer = self.period_timer - 1;
            if self.period_timer == 0 {
                self.period_timer = self.sweep();
            } else {
                return ;
            }
        }
        if self.volume < 0xF && !self.is_decrease() {
            self.volume = self.volume + 1
        } else if self.volume > 0 && self.is_decrease() {
            self.volume = self.volume - 1
        }
    }

    pub fn current_volume(&self) -> (r: u8)
        ensures
            r == self.volume,
    {
        self.volume
    }

    pub fn initial_volume(&self) -> (r: u8)
        ensures
            r == self.spec_initial_volume(),
            r <= 15,
    {
        (self.nrx2 >> 4) & 0b1111
    }

    pub fn is_decrease(&self) -> (r: bool)
        ensures
            r == self.spec_is_decrease(),
    {
        (self.nrx2 >> 3) & 1 == 0
    }

    pub fn sweep(&self) -> (r: u8)
        ensures
            r == self.spec_sweep(),
    {
        self.nrx2 & 0b111
    }
}


/// `k` ticks of the envelope clock.
pub open spec fn envelope_clocks(e: Envelope, k: nat) -> Envelope
    decreases k,
{
    if k == 0 {
        e
    } else {
        envelope_clocks(e, (k - 1) as nat).spec_clock()
    }
}

/// The volume after `steps` steps from `v`: up to at most 15, or down to at
/// least 0.
pub open spec fn stepped_volume(v: int, steps: int, decrease: bool) -> int {
    if decrease {
        if v - steps < 0 { 0 } else { v - steps }
    } else {
        if v + steps > 15 { 15 } else { v + steps }
    }
}

/// From a reload, with a sweep period `S` other than 0, the volume steps
/// once every `S` ticks: after `k` ticks it has taken `k / S` steps, clamped
/// to 0 to 15, and `S - k % S` ticks remain to the next.
pub proof fn lemma_envelope_step(e: Envelope, k: nat)
    requires
        e.wf(),
        e.spec_sweep() != 0,
        e.period_timer == e.spec_sweep(),
    ensures
        envelope_clocks(e, k) == (Envelope {
            period_timer: (e.spec_sweep() - (k as int) % (e.spec_sweep() as int)) as u8,
            volume: stepped_volume(e.volume as int, (k as int) / (e.spec_sweep() as int), e.spec_is_decrease()) as u8,
            ..e
        }),
    decreases k,
{
    let p = e.spec_sweep() as int;
    let nrx2 = e.nrx2;
    assert(nrx2 & 0b111 <= 7) by (bit_vector);
    if k == 0 {
        assert(0int % p == 0 && 0int / p == 0) by (nonlinear_arith) requires p > 0;
    } else {
        lemma_envelope_step(e, (k - 1) as nat);
        let x = (k - 1) as int;
        let q = x / p;
        let r = x % p;
        vstd::arithmetic::div_mod::lemma_fundamental_div_mod(x, p);
        assert(0 <= r < p) by (nonlinear_arith) requires p > 0, r == x % p;
        assert(x == q * p + r) by (nonlinear_arith) requires x == p * q + r;
        assert((q + 1) * p == q * p + p) by (nonlinear_arith);
        assert(q >= 0) by (nonlinear_arith) requires x >= 0, p > 0, q == x / p;
        if r == p - 1 {
            vstd::arithmetic::div_mod::lemma_fundamental_div_mod_converse(k as int, p, q + 1, 0int);
        } else {
            vstd::arithmetic::div_mod::lemma_fundamental_div_mod_converse(k as int, p, q, r + 1);
        }
    }
}


/// After a restart the volume is the initial volume; with a sweep period
/// `S` other than 0, it then takes one step every `S` clocks, clamped to 0
/// to 15.
pub proof fn lemma_envelope_after_restart(e: Envelope, k: nat)
    requires
        e.spec_sweep() != 0,
    ensures
        ({
            let r = Envelope { volume: e.spec_initial_volume(), period_timer: e.spec_sweep(), ..e };
            &&& r.volume == e.spec_initial_volume()
            &&& envelope_clocks(r, k).volume == stepped_volume(
                e.spec_initial_volume() as int,
                (k as int) / (e.spec_sweep() as int),
                e.spec_is_decrease(),
            )
        }),
{
    let r = Envelope { volume: e.spec_initial_volume(), period_timer: e.spec_sweep(), ..e };
    let nrx2 = e.nrx2;
    assert((nrx2 >> 4u8) & 0b1111 <= 15) by (bit_vector);
    lemma_envelope_step(r, k);
}

} // verus!
