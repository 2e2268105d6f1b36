use vstd::prelude::*;
use crate::apu::envelope::Envelope;
use crate::apu::frequency::{frequency_of, lemma_frequency_period, ticks, Frequency};
use crate::apu::wave_length::WaveLength;

verus! {

broadcast use crate::bits::group_bits;

/// Square wave channel (NR21 to NR24).
pub struct Channel2 {
    pub enable: bool,
    pub nr21: u8,
    pub nr22: u8,
    pub nr23: u8,
    pub nr24: u8,
    pub frequency: Frequency,
    pub wave_length: WaveLength,
    pub envelope: Envelope,
}

impl Default for Channel2 {
    fn default() -> (r: Self)
        ensures
            r.wf(),
            !r.enable,
            r.nr21 == 0 && r.nr22 == 0 && r.nr23 == 0 && r.nr24 == 0,
    {
        Self {
            enable: false,
            nr21: 0,
            nr22: 0,
            nr23: 0,
            nr24: 0,
            frequency: Frequency::default(),
            wave_length: WaveLength::new(0),
            envelope: Envelope::from(0),
        }
    }
}

impl Channel2 {
    pub open spec fn wf(self) -> bool {
        &&& self.frequency.wf()
        &&& self.wave_length.wf()
        &&& self.envelope.wf()
        &&& self.nr21 == self.wave_length.nrx1
        &&& self.nr22 == self.envelope.nrx2
        &&& self.nr23 == self.frequency.nrx3
    }

    pub open spec fn spec_restart(self) -> Channel2 {
        Channel2 {
            wave_length: WaveLength {
                current_wave_duty_position: 0,
                length_timer: (64 - self.wave_length.spec_length()) as u8,
                ..self.wave_length
            },
            envelope: Envelope {
                volume: self.envelope.spec_initial_volume(),
                period_timer: self.envelope.spec_sweep(),
                ..self.envelope
            },
            frequency: Frequency { frequency_timer: self.frequency.period(), ..self.frequency },
            ..self
        }
    }

    /// A length clock: when the counter runs out the channel turns off and NR24 reads 0.
    pub open spec fn length_tick(self) -> Channel2 {
        let (w, done) = self.wave_length.spec_clock_length();
        if done {
            Channel2 { wave_length: w, enable: false, nr24: 0, ..self }
        } else {
            Channel2 { wave_length: w, ..self }
        }
    }

    /// Frame sequencer step: length on even steps, envelope on 7.
    pub open spec fn spec_clock(self, step: u8) -> Channel2 {
        if step == 0 || step == 2 || step == 4 || step == 6 {
            self.length_tick()
        } else if step == 7 {
            Channel2 { envelope: self.envelope.spec_clock(), ..self }
        } else {
            self
        }
    }

    pub open spec fn spec_cycle(self) -> Channel2 {
        if !self.enable {
            self
        } else {
            let (f, fired) = self.frequency.spec_cycle();
            let w = if fired {
                WaveLength {
                    current_wave_duty_position: ((self.wave_length.current_wave_duty_position + 1) % 8) as u8,
                    ..self.wave_length
                }
            } else {
                self.wave_length
            };
            Channel2 { frequency: f, wave_length: w, ..self }
        }
    }

    pub open spec fn spec_data(self) -> u8 {
        if self.enable {
            (self.wave_length.spec_amp() * self.envelope.volume) as u8
        } else {
            0
        }
    }

    pub open spec fn spec_set(self, address: usize, val: u8) -> Channel2 {
        if address == 0xFF16 {
            Channel2 { nr21: val, wave_length: WaveLength { nrx1: val, ..self.wave_length }, ..self }
        } else if address == 0xFF17 {
            Channel2 { nr22: val, envelope: Envelope { nrx2: val, ..self.envelope }, ..self }
        } else if address == 0xFF18 {
            Channel2 {
                nr23: val,
                frequency: Frequency {
                    nrx3: val,
                    initial_frequency: frequency_of(val, self.frequency.nrx4),
                    ..self.frequency
                },
                ..self
            }
        } else if (val >> 7) & 1 == 1 {
            Channel2 {
                nr24: val,
                enable: true,
                frequency: Frequency {
                    nrx4: val,
                    initial_frequency: frequency_of(self.frequency.nrx3, val),
                    ..self.frequency
                },
                wave_length: WaveLength {
                    is_length_enable: if (val >> 6) & 1 == 1 { true } else { self.wave_length.is_length_enable },
                    ..self.wave_length
                },
                ..self
            }.spec_restart()
        } else {
            Channel2 { nr24: val, ..self }
        }
    }

    pub open spec fn spec_get(self, address: usize) -> u8 {
        if address == 0xFF16 {
            self.nr21
        } else if address == 0xFF17 {
            self.nr22
        } else if address == 0xFF18 {
            self.nr23
        } else {
            self.nr24
        }
    }

    pub fn restart(&mut self)
        requires
            old(self).wf(),
        ensures
            *final(self) == old(self).spec_restart(),
            final(self).wf(),
    {
        self.wave_length.restart();
        self.envelope.restart();
        self.frequency.restart();
    }

    pub fn cycle(&mut self)
        requires
            old(self).wf(),
        ensures
            *final(self) == old(self).spec_cycle(),
            final(self).wf(),
    {
        if !self.enable {
            return ;
        }
        if self.frequency.cycle() {
            self.wave_length.next();
        }
    }

    /// A frame sequencer step; the channel is clocked whether or not it is on.
    pub fn clock(&mut self, step: u8)
        requires
            old(self).wf(),
        ensures
            *final(self) == old(self).spec_clock(step),
            final(self).wf(),
    {
        match step {
            0 => if self.wave_length.clock_length() {
                self.enable = false;
                self.nr24 = 0;
            },
            2 => if self.wave_length.clock_length() {
                self.enable = false;
                self.nr24 = 0;
            },
            4 => if self.wave_length.clock_length() {
                self.enable = false;
                self.nr24 = 0;
            },
            6 => if self.wave_length.clock_length() {
                self.enable = false;
                self.nr24 = 0;
            },
            7 => self.envelope.clock(),
            _ => {},
        }
    }

    /// The output level, 0 to 15.
    pub fn get_data(&self) -> (r: u8)
        requires
            self.wf(),
        ensures
            r == self.spec_data(),
            r <= 15,
    {
        if self.enable {
            let amp = self.wave_length.get_amp();
            let vol = self.envelope.current_volume();
            assert(amp * vol <= 15) by (nonlinear_arith)
                requires
                    amp <= 1,
                    vol <= 15,
            ;
            amp * vol
        } else {
            0
        }
    }

    pub fn set(&mut self, address: usize, val: u8)
        requires
            old(self).wf(),
            0xFF16 <= address <= 0xFF19,
        ensures
            *final(self) == old(self).spec_set(address, val),
            final(self).wf(),
    {
        match address {
            0xFF16 => {
                self.nr21 = val;
                self.wave_length.set(val);
            },
            0xFF17 => {
                self.nr22 = val;
                self.envelope.set(val);
            },
            0xFF18 => {
                self.nr23 = val;
                self.frequency.set_nrx3(val);
            },
            _ => {
                self.nr24 = val;
                if (val >> 7) & 1 == 1 {
                    self.enable = true;
                    self.frequency.set_nrx4(val);
                    if (val >> 6) & 1 == 1 {
                        self.wave_length.enable_length()
                    }
                    self.restart();
                }
            },
        }
    }

    pub fn get(&self, address: usize) -> (r: u8)
        requires
            0xFF16 <= address <= 0xFF19,
        ensures
            r == self.spec_get(address),
    {
        match address {
            0xFF16 => self.nr21,
            0xFF17 => self.nr22,
            0xFF18 => self.nr23,
            _ => self.nr24,
        }
    }
}


/// `k` cycles of channel 2.
pub open spec fn channel2_cycles(c: Channel2, k: nat) -> Channel2
    decreases k,
{
    if k == 0 {
        c
    } else {
        channel2_cycles(c, (k - 1) as nat).spec_cycle()
    }
}

/// While the channel is on, its duty position moves on by one, modulo 8,
/// each time its frequency timer fires, and nothing else but the timer
/// changes: after `k` cycles the position is the start plus the number of
/// firings in `k` ticks (see `lemma_frequency_period` for that number).
pub proof fn lemma_channel2_duty(c: Channel2, k: nat)
    requires
        c.enable,
        c.wave_length.wf(),
    ensures
        channel2_cycles(c, k) == (Channel2 {
            frequency: ticks(c.frequency, k).0,
            wave_length: WaveLength {
                current_wave_duty_position: ((c.wave_length.current_wave_duty_position + ticks(c.frequency, k).1) % 8) as u8,
                ..c.wave_length
            },
            ..c
        }),
    decreases k,
{
    if k > 0 {
        lemma_channel2_duty(c, (k - 1) as nat);
    } else {
        assert(c.wave_length.current_wave_duty_position % 8 == c.wave_length.current_wave_duty_position);
    }
}


/// From a restart of the frequency timer, with a frequency other than 0, the
/// channel's position moves on once every (2048 - frequency) * 4 cycles:
/// after `k` cycles it is the start plus `k / period`, modulo 8.
pub proof fn lemma_channel2_steps_from_restart(c: Channel2, k: nat)
    requires
        c.enable,
        c.wave_length.wf(),
        c.frequency.wf(),
        c.frequency.initial_frequency != 0,
        c.frequency.frequency_timer == c.frequency.period(),
    ensures
        channel2_cycles(c, k).wave_length.current_wave_duty_position == ((c.wave_length.current_wave_duty_position + k / (c.frequency.period() as nat)) % 8),
{
    lemma_channel2_duty(c, k);
    lemma_frequency_period(c.frequency, k);
}

} // verus!
