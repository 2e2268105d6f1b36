use vstd::prelude::*;
use crate::apu::frequency::{frequency_of, lemma_frequency_period, ticks, Frequency};
use crate::apu::length::Length;

verus! {

broadcast use crate::bits::group_bits;

/// The 32 four-bit samples held in the 16 bytes of wave RAM, high nibble first.
pub open spec fn wave_samples(ram: Seq<u8>) -> Seq<u8> {
    Seq::new(32, |j: int| if j % 2 == 0 { ram[j / 2] >> 4 } else { ram[j / 2] & 0xF })
}

/// The right shift that the output level code of NR32 applies to a sample.
pub open spec fn output_shift_of(nr32: u8) -> u8 {
    let code = (nr32 >> 5) & 0b11;
    if code == 0 {
        4
    } else if code == 1 {
        0
    } else if code == 2 {
        1
    } else {
        2
    }
}

/// The output level code, bits 5 and 6 of NR32, scales a four-bit sample:
/// code 0 mutes it, code 1 plays it at full volume, code 2 at half and code 3
/// at a quarter, rounding down.
pub proof fn lemma_output_level(nr32: u8, s: u8)
    by (bit_vector)
    requires
        s <= 15,
    ensures
        (nr32 / 32) % 4 == 0 ==> s >> output_shift_of(nr32) == 0,
        (nr32 / 32) % 4 == 1 ==> s >> output_shift_of(nr32) == s,
        (nr32 / 32) % 4 == 2 ==> s >> output_shift_of(nr32) == s / 2,
        (nr32 / 32) % 4 == 3 ==> s >> output_shift_of(nr32) == s / 4,
{
}

/// Wave channel (NR30 to NR34 and wave RAM at FF30 to FF3F).
pub struct Channel3 {
    pub enable: bool,
    pub nr30: u8,
    pub nr31: u8,
    pub nr32: u8,
    pub nr33: u8,
    pub nr34: u8,
    pub wave_pattern_ram: [u8; 0x10],
    pub wave_pattern: [u8; 32],
    pub wave_index: usize,
    pub frequency: Frequency,
    pub length: Length,
}

impl Default for Channel3 {
    fn default() -> (r: Self)
        ensures
            r.wf(),
            !r.enable,
            r.wave_pattern_ram@ == Seq::new(16, |i: int| 0u8),
            r.nr30 == 0 && r.nr31 == 0 && r.nr32 == 0 && r.nr33 == 0 && r.nr34 == 0,
    {
        let r = Self {
            enable: false,
            nr30: 0,
            nr31: 0,
            nr32: 0,
            nr33: 0,
            nr34: 0,
            wave_pattern_ram: [0; 0x10],
            wave_pattern: [0; 32],
            wave_index: 0,
            frequency: Frequency::default(),
            length: Length::from(0),
        };
        assert(r.wave_pattern_ram@ =~= Seq::new(16, |i: int| 0u8));
        assert(forall|j: int| 0 <= j < 32 ==> #[trigger] wave_samples(r.wave_pattern_ram@)[j] == 0) by {
            assert(forall|v: u8| v == 0 ==> (v >> 4) == 0 && (v & 0xF) == 0) by (bit_vector);
        }
        assert(r.wave_pattern@ =~= wave_samples(r.wave_pattern_ram@));
        r
    }
}

impl Channel3 {
    /// The samples always mirror wave RAM, and the position is one of the 32 samples.
    pub open spec fn wf(self) -> bool {
        &&& self.wave_pattern@ == wave_samples(self.wave_pattern_ram@)
        &&& self.wave_index < 32
        &&& self.frequency.wf()
        &&& self.nr31 == self.length.nr31
        &&& self.nr33 == self.frequency.nrx3
        &&& self.nr34 == self.frequency.nrx4
    }

    pub open spec fn spec_restart(self) -> Channel3 {
        Channel3 {
            wave_index: 0,
            length: Length { length_timer: (255 - self.length.nr31) as u8, ..self.length },
            frequency: Frequency { frequency_timer: self.frequency.period(), ..self.frequency },
            ..self
        }
    }

    /// A length clock: when the counter runs out the channel turns off and NR30 reads 0.
    pub open spec fn length_tick(self) -> Channel3 {
        let (l, done) = self.length.spec_clock_length();
        if done {
            Channel3 { length: l, enable: false, nr30: 0, ..self }
        } else {
            Channel3 { length: l, ..self }
        }
    }

    /// Frame sequencer step: length on even steps.
    pub open spec fn spec_clock(self, step: u8) -> Channel3 {
        if step == 0 || step == 2 || step == 4 || step == 6 {
            self.length_tick()
        } else {
            self
        }
    }

    pub open spec fn spec_cycle(self) -> Channel3 {
        if !self.enable {
            self
        } else {
            let (f, fired) = self.frequency.spec_cycle();
            let index = if fired { (self.wave_index + 1) % 32 } else { self.wave_index as int };
            Channel3 { frequency: f, wave_index: index as usize, ..self }
        }
    }

    /// The output: the current sample shifted by the output level, or 0 when off.
    pub open spec fn spec_data(self) -> u8 {
        if self.enable {
            self.wave_pattern@[self.wave_index as int] >> output_shift_of(self.nr32)
        } else {
            0
        }
    }

    /// While the channel is on, its output is the current four-bit sample
    /// scaled by the output level of NR32: muted, full, half or a quarter.
    pub proof fn lemma_data_level(self)
        requires
            self.wf(),
            self.enable,
        ensures
            ({
                let s = self.wave_pattern@[self.wave_index as int];
                let code = (self.nr32 / 32) % 4;
                &&& s <= 15
                &&& code == 0 ==> self.spec_data() == 0
                &&& code == 1 ==> self.spec_data() == s
                &&& code == 2 ==> self.spec_data() == s / 2
                &&& code == 3 ==> self.spec_data() == s / 4
            }),
    {
        let ram = self.wave_pattern_ram@;
        let i = self.wave_index as int;
        let w = ram[i / 2];
        assert((w >> 4) <= 15 && (w & 0xF) <= 15) by (bit_vector);
        assert(self.wave_pattern@[i] == wave_samples(ram)[i]);
        lemma_output_level(self.nr32, self.wave_pattern@[i]);
    }

    pub fn restart(&mut self)
        requires
            old(self).wf(),
        ensures
            *final(self) == old(self).spec_restart(),
            final(self).wf(),
    {
        self.wave_index = 0;
        self.length.restart();
        self.frequency.restart();
    }

    pub fn cycle(&mut self)
        requires
            old(self).wf(),
        ensures
            *final(self) == old(self).spec_cycle(),
            final(self).wf(),
    {
        if !self.enable {
            return ;
        }
        if self.frequency.cycle() {
            self.wave_index = (self.wave_index + 1) % 32;
        }
    }

    /// A frame sequencer step; the channel is clocked whether or not it is on.
    pub fn clock(&mut self, step: u8)
        requires
            old(self).wf(),
        ensures
            *final(self) == old(self).spec_clock(step),
            final(self).wf(),
    {
        match step {
            0 => if self.length.clock_length() {
                self.enable = false;
                self.nr30 = 0;
            },
            2 => if self.length.clock_length() {
                self.enable = false;
                self.nr30 = 0;
            },
            4 => if self.length.clock_length() {
                self.enable = false;
                self.nr30 = 0;
            },
            6 => if self.length.clock_length() {
                self.enable = false;
                self.nr30 = 0;
            },
            _ => {},
        }
    }

    /// The output level, 0 to 15.
    pub fn get_data(&self) -> (r: u8)
        requires
            self.wf(),
        ensures
            r == self.spec_data(),
            r <= 15,
    {
        if self.enable {
            let sample = self.wave_pattern[self.wave_index];
            let shift = self.output_shift();
            let ghost ram = self.wave_pattern_ram@;
            let ghost i = self.wave_index as int;
            assert(sample <= 15) by {
                assert(sample == wave_samples(ram)[i]);
                let w = ram[i / 2];
                assert((w >> 4) <= 15 && (w & 0xF) <= 15) by (bit_vector);
            }
            assert(sample >> shift <= 15) by (bit_vector)
                requires
                    sample <= 15,
                    shift <= 4,
            ;
            sample >> shift
        } else {
            0
        }
    }

    fn output_shift(&self) -> (r: u8)
        ensures
            r == output_shift_of(self.nr32),
            r <= 4,
    {
        match (self.nr32 >> 5) & 0b11 {
            0 => 4,
            1 => 0,
            2 => 1,
            _ => 2,
        }
    }

    pub open spec fn spec_set(self, address: usize, val: u8) -> Channel3 {
        if address == 0xFF1A {
            Channel3 { nr30: val, enable: (val >> 7) & 1 == 1, ..self }
        } else if address == 0xFF1B {
            Channel3 { nr31: val, length: Length { nr31: val, ..self.length }, ..self }
        } else if address == 0xFF1C {
            Channel3 { nr32: val, ..self }
        } else if address == 0xFF1D {
            Channel3 {
                nr33: val,
                frequency: Frequency {
                    nrx3: val,
                    initial_frequency: frequency_of(val, self.frequency.nrx4),
                    ..self.frequency
                },
                ..self
            }
        } else if address == 0xFF1E {
            let c = Channel3 {
                nr34: val,
                frequency: Frequency {
                    nrx4: val,
                    initial_frequency: frequency_of(self.frequency.nrx3, val),
                    ..self.frequency
                },
                length: Length {
                    is_length_enable: if (val >> 6) & 1 == 1 { true } else { self.length.is_length_enable },
                    ..self.length
                },
                ..self
            };
            if (val >> 7) & 1 == 1 {
                c.spec_restart()
            } else {
                c
            }
        } else {
            self
        }
    }

    pub open spec fn spec_get(self, address: usize) -> u8 {
        if address == 0xFF1A {
            self.nr30
        } else if address == 0xFF1B {
            self.nr31
        } else if address == 0xFF1C {
            self.nr32
        } else if address == 0xFF1D {
            self.nr33
        } else if address == 0xFF1E {
            self.nr34
        } else {
            self.wave_pattern_ram@[address - 0xFF30]
        }
    }

    /// A write to a register, or to wave RAM (which also refreshes the samples).
    pub fn set(&mut self, address: usize, val: u8)
        requires
            old(self).wf(),
            0xFF1A <= address <= 0xFF1E || 0xFF30 <= address <= 0xFF3F,
        ensures
            0xFF1A <= address <= 0xFF1E ==> *final(self) == old(self).spec_set(address, val),
            0xFF30 <= address <= 0xFF3F ==> {
                &&& final(self).wave_pattern_ram@ == old(self).wave_pattern_ram@.update(address - 0xFF30, val)
                &&& *final(self) == (Channel3 {
                    wave_pattern_ram: final(self).wave_pattern_ram,
                    wave_pattern: final(self).wave_pattern,
                    ..*old(self)
                })
            },
            final(self).wf(),
    {
        match address {
            0xFF1A => {
                self.nr30 = val;
                if (val >> 7) & 1 == 1 {
                    self.enable = true;
                } else {
                    self.enable = false;
                }
            },
            0xFF1B => {
                self.nr31 = val;
                self.length.set(val);
            },
            0xFF1C => {
                self.nr32 = val;
            },
            0xFF1D => {
                self.nr33 = val;
                self.frequency.set_nrx3(val);
            },
            0xFF1E => {
                self.nr34 = val;
                self.frequency.set_nrx4(val);
                if (val >> 6) & 1 == 1 {
                    self.length.enable_length()
                }
                if (val >> 7) & 1 == 1 {
                    self.restart();
                }
            },
            _ => {
                self.wave_pattern_ram[address - 0xFF30] = val;
                let mut i: usize = 0;
                while i < 0x10
                    invariant
                        0 <= i <= 0x10,
                        self.wave_pattern_ram@ == old(self).wave_pattern_ram@.update(address - 0xFF30, val),
                        forall|j: int| 0 <= j < 2 * i ==> #[trigger] self.wave_pattern@[j] == wave_samples(self.wave_pattern_ram@)[j],
                        *self == (Channel3 {
                            wave_pattern_ram: self.wave_pattern_ram,
                            wave_pattern: self.wave_pattern,
                            ..*old(self)
                        }),
                    decreases 0x10 - i,
                {
                    let w = self.wave_pattern_ram[i];
                    self.wave_pattern[i * 2] = w >> 4;
                    self.wave_pattern[i * 2 + 1] = w & 0xF;
                    i = i + 1;
                }
                assert(self.wave_pattern@ =~= wave_samples(self.wave_pattern_ram@));
            },
        }
    }

    pub fn get(&self, address: usize) -> (r: u8)
        requires
            0xFF1A <= address <= 0xFF1E || 0xFF30 <= address <= 0xFF3F,
        ensures
            r == self.spec_get(address),
    {
        match address {
            0xFF1A => self.nr30,
            0xFF1B => self.nr31,
            0xFF1C => self.nr32,
            0xFF1D => self.nr33,
            0xFF1E => self.nr34,
            _ => self.wave_pattern_ram[address - 0xFF30],
        }
    }
}


/// `k` cycles of channel 3.
pub open spec fn channel3_cycles(c: Channel3, k: nat) -> Channel3
    decreases k,
{
    if k == 0 {
        c
    } else {
        channel3_cycles(c, (k - 1) as nat).spec_cycle()
    }
}

/// While the channel is on, its wave position moves on by one, modulo 32,
/// each time its frequency timer fires, and nothing else but the timer
/// changes; the position so stays inside the 32 samples.
pub proof fn lemma_channel3_position(c: Channel3, k: nat)
    requires
        c.enable,
        c.wave_index < 32,
    ensures
        channel3_cycles(c, k) == (Channel3 {
            frequency: ticks(c.frequency, k).0,
            wave_index: ((c.wave_index + ticks(c.frequency, k).1) % 32) as usize,
            ..c
        }),
        channel3_cycles(c, k).wave_index < 32,
    decreases k,
{
    if k > 0 {
        lemma_channel3_position(c, (k - 1) as nat);
    } else {
        assert(c.wave_index % 32 == c.wave_index);
    }
}


/// From a restart of the frequency timer, with a frequency other than 0, the
/// channel's position moves on once every (2048 - frequency) * 4 cycles:
/// after `k` cycles it is the start plus `k / period`, modulo 32.
pub proof fn lemma_channel3_steps_from_restart(c: Channel3, k: nat)
    requires
        c.enable,
        c.wave_index < 32,
        c.frequency.wf(),
        c.frequency.initial_frequency != 0,
        c.frequency.frequency_timer == c.frequency.period(),
    ensures
        channel3_cycles(c, k).wave_index == ((c.wave_index + k / (c.frequency.period() as nat)) % 32),
{
    lemma_channel3_position(c, k);
    lemma_frequency_period(c.frequency, k);
}

} // verus!
