use vstd::prelude::*;

verus! {

/// The length counter of channel 3 (8-bit length).
pub struct Length {
    pub nr31: u8,
    pub is_length_enable: bool,
    pub length_timer: u8,
}

impl From<u8> for Length {
    fn from(from: u8) -> (r: Self)
        ensures
            r == (Length { length_timer: 0, nr31: from, is_length_enable: false }),
    {
        Length::new(from)
    }
}

impl vstd::std_specs::convert::FromSpecImpl<u8> for Length {
    open spec fn obeys_from_spec() -> bool {
        true
    }

    open spec fn from_spec(v: u8) -> Self {
        Length { length_timer: 0, nr31: v, is_length_enable: false }
    }
}

impl From<Length> for u8 {
    fn from(from: Length) -> (r: u8)
        ensures
            r == from.nr31,
    {
        from.nr31
    }
}

impl vstd::std_specs::convert::FromSpecImpl<Length> for u8 {
    open spec fn obeys_from_spec() -> bool {
        true
    }

    open spec fn from_spec(v: Length) -> u8 {
        v.nr31
    }
}

impl Length {
    /// One length clock: when enabled, the timer counts down (wrapping); reaching
    /// 0 disables the counter and is reported.
    pub open spec fn spec_clock_length(self) -> (Length, bool) {
        if !self.is_length_enable {
            (self, false)
        } else {
            let t = self.length_timer.wrapping_sub(1);
            if t == 0 {
                (Length { length_timer: t, is_length_enable: false, ..self }, true)
            } else {
                (Length { length_timer: t, ..self }, false)
            }
        }
    }

    pub fn new(nr31: u8) -> (r: Self)
        ensures
            r == (Length { length_timer: 0, nr31, is_length_enable: false }),
    {
        Self { length_timer: 0, nr31, is_length_enable: false }
    }

    pub fn restart(&mut self)
        ensures
            *final(self) == (Length { length_timer: (255 - old(self).nr31) as u8, ..*old(self) }),
    {
        self.length_timer = 255 - self.length();
    }

    pub fn clock_length(&mut self) -> (r: bool)
        ensures
            (*final(self), r) == old(self).spec_clock_length(),
    {
        if !self.is_length_enable {
            return false;
        }
        self.length_timer = self.length_timer.wrapping_sub(1);
        if self.length_timer == 0 {
            self.is_length_enable = false;
            return true;
        }
        false
    }

    pub fn enable_length(&mut self)
        ensures
            *final(self) == (Length { is_length_enable: true, ..*old(self) }),
    {
        self.is_length_enable = true;
    }

    pub fn set(&mut self, nr31: u8)
        ensures
            *final(self) == (Length { nr31, ..*old(self) }),
    {
        self.nr31 = nr31;
    }

    pub fn length(&self) -> (r: u8)
        ensures
            r == self.nr31,
    {
        self.nr31
    }
}


/// `k` clocks of the length counter: the unit after them, and how many of
/// them reported the end of the length.
pub open spec fn length_clocks(w: Length, k: nat) -> (Length, nat)
    decreases k,
{
    if k == 0 {
        (w, 0)
    } else {
        let (g, n) = length_clocks(w, (k - 1) as nat);
        let (h, ended) = g.spec_clock_length();
        (h, if ended { n + 1 } else { n })
    }
}

/// An enabled length counter loaded with `T` (at least 1) counts down once a
/// clock, ends exactly once, at clock `T`, and then stays off.
pub proof fn lemma_length_counter(w: Length, k: nat)
    requires
        w.is_length_enable,
        w.length_timer >= 1,
    ensures
        k < w.length_timer ==> length_clocks(w, k) == (Length { length_timer: (w.length_timer - k) as u8, ..w }, 0nat),
        k >= w.length_timer ==> length_clocks(w, k) == (Length { length_timer: 0, is_length_enable: false, ..w }, 1nat),
    decreases k,
{
    if k > 0 {
        lemma_length_counter(w, (k - 1) as nat);
    }
}

} // verus!
