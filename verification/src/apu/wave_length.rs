use vstd::prelude::*;

verus! {

broadcast use crate::bits::group_bits;

/// The duty cycle of a square wave: its eight steps, each 0 or 1.
pub open spec fn duty_wave(duty: u8) -> Seq<u8> {
    if duty == 0 {
        seq![0u8, 0, 0, 0, 0, 0, 0, 1]
    } else if duty == 1 {
        seq![0u8, 0, 0, 0, 0, 0, 1, 1]
    } else if duty == 2 {
        seq![0u8, 0, 0, 0, 1, 1, 1, 1]
    } else {
        seq![0u8, 1, 1, 1, 1, 1, 0, 0]
    }
}

/// The duty position and length counter of channels 1, 2 and 4 (6-bit length).
pub struct WaveLength {
    pub nrx1: u8,
    pub current_wave_duty_position: u8,
    pub is_length_enable: bool,
    pub length_timer: u8,
}

impl From<u8> for WaveLength {
    fn from(from: u8) -> (r: Self)
        ensures
            r == WaveLength::spec_new(from),
    {
        WaveLength::new(from)
    }
}

impl vstd::std_specs::convert::FromSpecImpl<u8> for WaveLength {
    open spec fn obeys_from_spec() -> bool {
        true
    }

    open spec fn from_spec(v: u8) -> Self {
        WaveLength::spec_new(v)
    }
}

impl From<WaveLength> for u8 {
    fn from(from: WaveLength) -> (r: u8)
        ensures
            r == from.nrx1,
    {
        from.nrx1
    }
}

impl vstd::std_specs::convert::FromSpecImpl<WaveLength> for u8 {
    open spec fn obeys_from_spec() -> bool {
        true
    }

    open spec fn from_spec(v: WaveLength) -> u8 {
        v.nrx1
    }
}

impl WaveLength {
    pub open spec fn spec_new(nrx1: u8) -> WaveLength {
        WaveLength { length_timer: 0, nrx1, current_wave_duty_position: 0, is_length_enable: false }
    }

    /// The duty position is one of the eight steps.
    pub open spec fn wf(self) -> bool {
        self.current_wave_duty_position < 8
    }

    pub open spec fn spec_duty(self) -> u8 {
        (self.nrx1 >> 6) & 0b11
    }

    pub open spec fn spec_length(self) -> u8 {
        self.nrx1 & 0b1_1111
    }

    /// The current step of the wave.
    pub open spec fn spec_amp(self) -> u8 {
        duty_wave(self.spec_duty())[self.current_wave_duty_position as int]
    }

    pub open spec fn spec_clock_length(self) -> (WaveLength, bool) {
        if !self.is_length_enable {
            (self, false)
        } else {
            let t = self.length_timer.wrapping_sub(1);
            if t == 0 {
                (WaveLength { length_timer: t, is_length_enable: false, ..self }, true)
            } else {
                (WaveLength { length_timer: t, ..self }, false)
            }
        }
    }

    pub fn new(nrx1: u8) -> (r: Self)
        ensures
            r == WaveLength::spec_new(nrx1),
    {
        Self { length_timer: 0, nrx1, current_wave_duty_position: 0, is_length_enable: false }
    }

    pub fn restart(&mut self)
        ensures
            *final(self) == (WaveLength {
                current_wave_duty_position: 0,
                length_timer: (64 - old(self).spec_length()) as u8,
                ..*old(self)
            }),
    {
        self.current_wave_duty_position = 0;
        self.length_timer = 64 - self.length();
    }

    pub fn clock_length(&mut self) -> (r: bool)
        ensures
            (*final(self), r) == old(self).spec_clock_length(),
    {
        if !self.is_length_enable {
            return false;
        }
        self.length_timer = self.length_timer.wrapping_sub(1);
        if self.length_timer == 0 {
            self.is_length_enable = false;
            return true;
        }
        false
    }

    pub fn get_amp(&self) -> (r: u8)
        requires
            self.wf(),
        ensures
            r == self.spec_amp(),
            r <= 1,
    {
        let wave = self.wave();
        wave[self.current_wave_duty_position as usize]
    }

    pub fn enable_length(&mut self)
        ensures
            *final(self) == (WaveLength { is_length_enable: true, ..*old(self) }),
    {
        self.is_length_enable = true;
    }

    pub fn set(&mut self, nrx1: u8)
        ensures
            *final(self) == (WaveLength { nrx1, ..*old(self) }),
    {
        self.nrx1 = nrx1;
    }

    /// Moves to the next of the eight steps.
    pub fn next(&mut self)
        requires
            old(self).wf(),
        ensures
            *final(self) == (WaveLength {
                current_wave_duty_position: ((old(self).current_wave_duty_position + 1) % 8) as u8,
                ..*old(self)
            }),
    {
        self.current_wave_duty_position = (self.current_wave_duty_position + 1) % 8;
    }

    pub fn wave_pattern_duty(&self) -> (r: u8)
        ensures
            r == self.spec_duty(),
    {
        (self.nrx1 >> 6) & 0b11
    }

    pub fn wave(&self) -> (r: [u8; 8])
        ensures
            r@ == duty_wave(self.spec_duty()),
    {
        let duty = self.wave_pattern_duty();
        let r = match duty {
            0 => [0u8, 0, 0, 0, 0, 0, 0, 1],
            1 => [0u8, 0, 0, 0, 0, 0, 1, 1],
            2 => [0u8, 0, 0, 0, 1, 1, 1, 1],
            _ => [0u8, 1, 1, 1, 1, 1, 0, 0],
        };
        assert(r@ =~= duty_wave(duty));
        r
    }

    pub fn length(&self) -> (r: u8)
        ensures
            r == self.spec_length(),
            r <= 31,
    {
        self.nrx1 & 0b1_1111
    }
}


/// `k` clocks of the length counter: the unit after them, and how many of
/// them reported the end of the length.
pub open spec fn wave_clocks(w: WaveLength, k: nat) -> (WaveLength, nat)
    decreases k,
{
    if k == 0 {
        (w, 0)
    } else {
        let (g, n) = wave_clocks(w, (k - 1) as nat);
        let (h, ended) = g.spec_clock_length();
        (h, if ended { n + 1 } else { n })
    }
}

/// An enabled length counter loaded with `T` (at least 1) counts down once a
/// clock, ends exactly once, at clock `T`, and then stays off.
pub proof fn lemma_wave_length_counter(w: WaveLength, k: nat)
    requires
        w.is_length_enable,
        w.length_timer >= 1,
    ensures
        k < w.length_timer ==> wave_clocks(w, k) == (WaveLength { length_timer: (w.length_timer - k) as u8, ..w }, 0nat),
        k >= w.length_timer ==> wave_clocks(w, k) == (WaveLength { length_timer: 0, is_length_enable: false, ..w }, 1nat),
    decreases k,
{
    if k > 0 {
        lemma_wave_length_counter(w, (k - 1) as nat);
    }
}


/// `k` calls of `next`.
pub open spec fn advanced(w: WaveLength, k: nat) -> WaveLength
    decreases k,
{
    if k == 0 {
        w
    } else {
        let v = advanced(w, (k - 1) as nat);
        WaveLength { current_wave_duty_position: ((v.current_wave_duty_position + 1) % 8) as u8, ..v }
    }
}

/// After `k` calls of `next` the duty position is the start plus `k`,
/// modulo 8, and nothing else has moved; so the output is step
/// `(p + k) % 8` of the duty wave, and eight calls bring it back.
pub proof fn lemma_duty_steps(w: WaveLength, k: nat)
    requires
        w.wf(),
    ensures
        advanced(w, k) == (WaveLength {
            current_wave_duty_position: ((w.current_wave_duty_position + k) % 8) as u8,
            ..w
        }),
        advanced(w, k).spec_amp() == duty_wave(w.spec_duty())[(w.current_wave_duty_position + k) % 8],
    decreases k,
{
    if k > 0 {
        lemma_duty_steps(w, (k - 1) as nat);
    } else {
        assert(w.current_wave_duty_position % 8 == w.current_wave_duty_position);
    }
}

} // verus!
