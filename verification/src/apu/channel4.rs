use vstd::prelude::*;
use crate::apu::envelope::Envelope;
use crate::apu::noise_frequency::NoiseFrequency;
use crate::apu::wave_length::WaveLength;

verus! {

broadcast use crate::bits::group_bits;

/// One step of the linear feedback shift register: the XOR of the two low bits
/// enters at bit 14, and also at bit 6 in 7-bit (width) mode.
pub open spec fn lfsr_step(lfsr: u16, width_mode: bool) -> u16 {
    let x = (lfsr & 1) ^ ((lfsr >> 1) & 1);
    let shifted = (lfsr >> 1) | (x << 14);
    if width_mode {
        shifted | (x << 6)
    } else {
        shifted
    }
}

/// Noise channel (NR41 to NR44).
pub struct Channel4 {
    pub enable: bool,
    pub lfsr: u16,
    pub nr41: u8,
    pub nr42: u8,
    pub nr43: u8,
    pub nr44: u8,
    pub frequency: NoiseFrequency,
    pub wave_length: WaveLength,
    pub envelope: Envelope,
}

impl Default for Channel4 {
    fn default() -> (r: Self)
        ensures
            r.wf(),
            !r.enable,
            r.lfsr == 0,
            r.nr41 == 0 && r.nr42 == 0 && r.nr43 == 0 && r.nr44 == 0,
    {
        Self {
            enable: false,
            lfsr: 0,
            nr41: 0,
            nr42: 0,
            nr43: 0,
            nr44: 0,
            frequency: NoiseFrequency::default(),
            wave_length: WaveLength::new(0),
            envelope: Envelope::from(0),
        }
    }
}

impl Channel4 {
    pub open spec fn wf(self) -> bool {
        &&& self.wave_length.wf()
        &&& self.envelope.wf()
        &&& self.nr41 == self.wave_length.nrx1
        &&& self.nr42 == self.envelope.nrx2
        &&& self.nr43 == self.frequency.nr43
    }

    pub open spec fn spec_restart(self) -> Channel4 {
        Channel4 {
            lfsr: 0b0111_1111_1111_1111,
            wave_length: WaveLength {
                current_wave_duty_position: 0,
                length_timer: (64 - self.wave_length.spec_length()) as u8,
                ..self.wave_length
            },
            envelope: Envelope {
                volume: self.envelope.spec_initial_volume(),
                period_timer: self.envelope.spec_sweep(),
                ..self.envelope
            },
            frequency: NoiseFrequency {
                frequency_timer: self.frequency.spec_initial_frequency(),
                ..self.frequency
            },
            ..self
        }
    }

    /// A length clock: when the counter runs out the channel turns off and NR44 reads 0.
    pub open spec fn length_tick(self) -> Channel4 {
        let (w, done) = self.wave_length.spec_clock_length();
        if done {
            Channel4 { wave_length: w, enable: false, nr44: 0, ..self }
        } else {
            Channel4 { wave_length: w, ..self }
        }
    }

    /// Frame sequencer step, only while the channel is on: length on even
    /// steps, envelope on 7.
    pub open spec fn spec_clock(self, step: u8) -> Channel4 {
        if !self.enable {
            self
        } else if step == 0 || step == 2 || step == 4 || step == 6 {
            self.length_tick()
        } else if step == 7 {
            Channel4 { envelope: self.envelope.spec_clock(), ..self }
        } else {
            self
        }
    }

    pub open spec fn spec_cycle(self) -> Channel4 {
        if !self.enable {
            self
        } else {
            let (f, fired) = self.frequency.spec_cycle();
            let lfsr = if fired {
                lfsr_step(self.lfsr, (self.frequency.nr43 >> 3) & 1 == 1)
            } else {
                self.lfsr
            };
            Channel4 { frequency: f, lfsr, ..self }
        }
    }

    /// The output: the volume when bit 0 of the shift register is clear, else 0.
    pub open spec fn spec_data(self) -> u8 {
        if self.enable {
            (((self.lfsr & 1) ^ 1) * self.envelope.volume) as u8
        } else {
            0
        }
    }

    pub open spec fn spec_set(self, address: usize, val: u8) -> Channel4 {
        if address == 0xFF20 {
            Channel4 { nr41: val, wave_length: WaveLength { nrx1: val, ..self.wave_length }, ..self }
        } else if address == 0xFF21 {
            Channel4 { nr42: val, envelope: Envelope { nrx2: val, ..self.envelope }, ..self }
        } else if address == 0xFF22 {
            Channel4 { nr43: val, frequency: NoiseFrequency { nr43: val, ..self.frequency }, ..self }
        } else if (val >> 7) & 1 == 1 {
            Channel4 {
                nr44: val,
                enable: true,
                wave_length: WaveLength {
                    is_length_enable: if (val >> 6) & 1 == 1 { true } else { self.wave_length.is_length_enable },
                    ..self.wave_length
                },
                ..self
            }.spec_restart()
        } else {
            Channel4 { nr44: val, ..self }
        }
    }

    pub open spec fn spec_get(self, address: usize) -> u8 {
        if address == 0xFF20 {
            self.nr41
        } else if address == 0xFF21 {
            self.nr42
        } else if address == 0xFF22 {
            self.nr43
        } else {
            self.nr44
        }
    }

    pub fn restart(&mut self)
        requires
            old(self).wf(),
        ensures
            *final(self) == old(self).spec_restart(),
            final(self).wf(),
    {
        self.lfsr = 0b0111_1111_1111_1111;
        self.wave_length.restart();
        self.envelope.restart();
        self.frequency.restart();
    }

    pub fn cycle(&mut self)
        requires
            old(self).wf(),
        ensures
            *final(self) == old(self).spec_cycle(),
            final(self).wf(),
    {
        if !self.enable {
            return ;
        }
        if self.frequency.cycle() {
            let lfsr = self.lfsr;
            let xor_result = (lfsr & 0b1) ^ ((lfsr >> 1) & 1);
            let mut next = (lfsr >> 1) | (xor_result << 14);
            let width = self.frequency.is_width_mode();
            if width {
                next = next & !(1 >> 6);
                next = next | (xor_result << 6);
            }
            assert(next == lfsr_step(lfsr, width)) by (bit_vector)
                requires
                    xor_result == (lfsr & 0b1) ^ ((lfsr >> 1) & 1),
                    width ==> next == (((lfsr >> 1) | (xor_result << 14)) & !(1u16 >> 6u16)) | (xor_result << 6),
                    !width ==> next == (lfsr >> 1) | (xor_result << 14),
            ;
            self.lfsr = next;
        }
    }

    /// A frame sequencer step; nothing happens while the channel is off.
    pub fn clock(&mut self, step: u8)
        requires
            old(self).wf(),
        ensures
            *final(self) == old(self).spec_clock(step),
            final(self).wf(),
    {
        if !self.enable {
            return ;
        }
        match step {
            0 => if self.wave_length.clock_length() {
                self.enable = false;
                self.nr44 = 0;
            },
            2 => if self.wave_length.clock_length() {
                self.enable = false;
                self.nr44 = 0;
            },
            4 => if self.wave_length.clock_length() {
                self.enable = false;
                self.nr44 = 0;
            },
            6 => if self.wave_length.clock_length() {
                self.enable = false;
                self.nr44 = 0;
            },
            7 => self.envelope.clock(),
            _ => {},
        }
    }

    /// The output level, 0 to 15.
    pub fn get_data(&self) -> (r: u8)
        requires
            self.wf(),
        ensures
            r == self.spec_data(),
            r <= 15,
    {
        if self.enable {
            let lfsr = self.lfsr;
            let bit = lfsr & 1;
            let amp = (bit ^ 1) as u8;
            let vol = self.envelope.current_volume();
            assert(amp <= 1 && amp == (bit ^ 1)) by (bit_vector)
                requires
                    bit == lfsr & 1,
                    amp == (bit ^ 1) as u8,
            ;
            assert(amp * vol <= 15) by (nonlinear_arith)
                requires
                    amp <= 1,
                    vol <= 15,
            ;
            amp * vol
        } else {
            0
        }
    }

    pub fn set(&mut self, address: usize, val: u8)
        requires
            old(self).wf(),
            0xFF20 <= address <= 0xFF23,
        ensures
            *final(self) == old(self).spec_set(address, val),
            final(self).wf(),
    {
        match address {
            0xFF20 => {
                self.nr41 = val;
                self.wave_length.set(val);
            },
            0xFF21 => {
                self.nr42 = val;
                self.envelope.set(val);
            },
            0xFF22 => {
                self.nr43 = val;
                self.frequency.set_nr43(val);
            },
            _ => {
                self.nr44 = val;
                if (val >> 7) & 1 == 1 {
                    self.enable = true;
                    if (val >> 6) & 1 == 1 {
                        self.wave_length.enable_length()
                    }
                    self.restart();
                }
            },
        }
    }

    pub fn get(&self, address: usize) -> (r: u8)
        requires
            0xFF20 <= address <= 0xFF23,
        ensures
            r == self.spec_get(address),
    {
        match address {
            0xFF20 => self.nr41,
            0xFF21 => self.nr42,
            0xFF22 => self.nr43,
            _ => self.nr44,
        }
    }
}

} // verus!
