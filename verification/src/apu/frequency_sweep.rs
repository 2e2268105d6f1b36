use vstd::prelude::*;

verus! {

broadcast use crate::bits::group_bits;

/// The frequency sweep unit of channel 1.
pub struct FrequencySweep {
    pub nr10: u8,
    pub shadow_frequency: u16,
    pub timer: u8,
    pub enabled: bool,
}

impl Default for FrequencySweep {
    fn default() -> (r: Self)
        ensures
            r == (FrequencySweep { nr10: 0, shadow_frequency: 0, timer: 0, enabled: false }),
    {
        Self { nr10: 0, shadow_frequency: 0, timer: 0, enabled: false }
    }
}

impl FrequencySweep {
    /// The shadow frequency fits in 11 bits.
    pub open spec fn wf(self) -> bool {
        self.shadow_frequency < 2048
    }

    pub open spec fn spec_sweep_time(self) -> u8 {
        (self.nr10 >> 4) & 0b111
    }

    pub open spec fn spec_is_decrease(self) -> bool {
        (self.nr10 >> 3) & 1 == 0
    }

    pub open spec fn spec_shift(self) -> u8 {
        self.nr10 & 0b111
    }

    /// The timer reload: the sweep time, with 0 counting as 8.
    pub open spec fn reload(self) -> u8 {
        if self.spec_sweep_time() > 0 {
            self.spec_sweep_time()
        } else {
            8
        }
    }

    /// The next frequency: the shadow frequency plus or minus itself shifted right.
    pub open spec fn next_frequency(self) -> int {
        let delta = (self.shadow_frequency >> self.spec_shift()) as int;
        if self.spec_is_decrease() {
            self.shadow_frequency - delta
        } else {
            self.shadow_frequency + delta
        }
    }

    /// Computing the next frequency switches the sweep off when it passes 2047.
    pub open spec fn after_overflow_check(self) -> FrequencySweep {
        if self.next_frequency() > 2047 {
            FrequencySweep { enabled: false, ..self }
        } else {
            self
        }
    }

    pub open spec fn spec_restart(self, current_frequency: u16) -> FrequencySweep {
        let s = FrequencySweep {
            shadow_frequency: current_frequency,
            timer: self.reload(),
            enabled: self.spec_sweep_time() != 0 || self.spec_shift() != 0,
            ..self
        };
        if self.spec_shift() != 0 {
            s.after_overflow_check()
        } else {
            s
        }
    }

    /// One sweep clock: the timer counts down; when it is 0 it reloads and, if
    /// the sweep is on with a non-zero time, a new frequency below 2048 with a
    /// non-zero shift becomes the shadow frequency and is returned.
    pub open spec fn spec_clock(self) -> (FrequencySweep, Option<u16>) {
        if self.timer > 0 {
            (FrequencySweep { timer: (self.timer - 1) as u8, ..self }, None)
        } else {
            let s = FrequencySweep { timer: self.reload(), ..self };
            if s.enabled && s.spec_sweep_time() > 0 {
                let n = s.next_frequency();
                let s2 = s.after_overflow_check();
                if n < 2048 && s.spec_shift() > 0 {
                    let s3 = FrequencySweep { shadow_frequency: n as u16, ..s2 };
                    (s3.after_overflow_check(), Some(n as u16))
                } else {
                    (s2, None)
                }
            } else {
                (s, None)
            }
        }
    }

    pub fn set(&mut self, nr10: u8)
        ensures
            *final(self) == (FrequencySweep { nr10, ..*old(self) }),
    {
        self.nr10 = nr10;
    }

    pub fn restart(&mut self, current_frequency: u16)
        requires
            current_frequency < 2048,
        ensures
            *final(self) == old(self).spec_restart(current_frequency),
            final(self).wf(),
    {
        self.shadow_frequency = current_frequency;
        if self.sweep_time() > 0 {
            self.timer = self.sweep_time();
        } else {
            self.timer = 8;
        }
        self.enabled = self.sweep_time() != 0 || self.shift() != 0;
        if self.shift() != 0 {
            self.calculate_new_frequency();
        }
    }

    pub fn clock(&mut self) -> (r: Option<u16>)
        requires
            old(self).wf(),
        ensures
            (*final(self), r) == old(self).spec_clock(),
            final(self).wf(),
            r matches Some(f) ==> f < 2048,
    {
        if self.timer > 0 {
            self.timer = self.timer - 1;
            return None;
        }
        if self.sweep_time() > 0 {
            self.timer = self.sweep_time();
        } else {
            self.timer = 8;
        }
        if self.enabled && self.sweep_time() > 0 {
            let new_frequency = self.calculate_new_frequency();
            if new_frequency < 2048 && self.shift() > 0 {
                self.shadow_frequency = new_frequency;
                // for overflow check
                self.calculate_new_frequency();
                return Some(new_frequency);
            }
        }
        None
    }

    fn calculate_new_frequency(&mut self) -> (r: u16)
        requires
            old(self).wf(),
        ensures
            r == old(self).next_frequency(),
            *final(self) == old(self).after_overflow_check(),
    {
        let shift = self.shift();
        let mut new_frequency = self.shadow_frequency >> (shift as u16);
        let s = self.shadow_frequency;
        assert(new_frequency <= s) by (bit_vector)
            requires
                new_frequency == s >> (shift as u16),
        ;
        if self.is_decrease() {
            new_frequency = self.shadow_frequency - new_frequency;
        } else {
            new_frequency = self.shadow_frequency + new_frequency;
        }
        if new_frequency > 2047 {
            self.enabled = false;
        }
        new_frequency
    }

    fn sweep_time(&self) -> (r: u8)
        ensures
            r == self.spec_sweep_time(),
    {
        (self.nr10 >> 4) & 0b111
    }

    fn is_decrease(&self) -> (r: bool)
        ensures
            r == self.spec_is_decrease(),
    {
        (self.nr10 >> 3) & 1 == 0
    }

    fn shift(&self) -> (r: u8)
        ensures
            r == self.spec_shift(),
    {
        self.nr10 & 0b111
    }
}

} // verus!
