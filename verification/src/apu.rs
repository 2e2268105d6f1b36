pub mod channel1;
pub mod channel2;
pub mod channel3;
pub mod channel4;
pub mod envelope;
pub mod frequency;
pub mod frequency_sweep;
pub mod length;
pub mod noise_frequency;
pub mod wave_length;

use vstd::prelude::*;
use crate::apu::channel1::Channel1;
use crate::apu::channel2::Channel2;
use crate::apu::channel3::Channel3;
use crate::apu::channel4::Channel4;

verus! {

broadcast use crate::bits::group_bits;

/// The sample clock counts in units of 2^-17 machine cycles: each APU cycle
/// adds one cycle, and a sample is taken every 69905.07 / 735.07 cycles, the
/// single-precision value 12464932 / 2^17 (about 95.1), so that 735 samples
/// fall in the 69905 cycles of a frame.
pub const SAMPLE_TICK: u32 = 131072;

pub const SAMPLE_PERIOD: u32 = 12464932;

/// The addresses of the sound registers and wave RAM.
pub open spec fn is_apu_address(address: usize) -> bool {
    ||| 0xFF10 <= address <= 0xFF14
    ||| 0xFF16 <= address <= 0xFF1E
    ||| 0xFF20 <= address <= 0xFF26
    ||| 0xFF30 <= address <= 0xFF3F
}

/// A mixed sample in eighths: (ch1 + ch2 + ch3 + ch4 / 2) / 4 == value / 8.
pub open spec fn mix(c1: u8, c2: u8, c3: u8, c4: u8) -> u16 {
    (2 * (c1 + c2 + c3) + c4) as u16
}

pub struct APU {
    pub nr50: u8,
    pub nr51: u8,
    pub nr52: u8,
    pub channel1: Channel1,
    pub channel2: Channel2,
    pub channel3: Channel3,
    pub channel4: Channel4,
    pub amps: Vec<u16>,
    pub sample_counter: u32,
}

impl Default for APU {
    fn default() -> (r: Self)
        ensures
            r.wf(),
            r.nr50 == 0 && r.nr51 == 0 && r.nr52 == 0,
            r.amps@ == Seq::<u16>::empty(),
            r.sample_counter == 0,
    {
        Self {
            nr50: 0,
            nr51: 0,
            nr52: 0,
            channel1: Default::default(),
            channel2: Default::default(),
            channel3: Default::default(),
            channel4: Default::default(),
            amps: Vec::new(),
            sample_counter: 0,
        }
    }
}

impl APU {
    pub open spec fn wf(&self) -> bool {
        &&& self.channel1.wf()
        &&& self.channel2.wf()
        &&& self.channel3.wf()
        &&& self.channel4.wf()
        &&& self.sample_counter < SAMPLE_PERIOD
    }

    pub open spec fn spec_sound_enabled(&self) -> bool {
        (self.nr52 >> 7) & 1 == 1
    }

    /// `new` is `old` after one APU cycle: nothing while sound is off; otherwise
    /// every channel runs a cycle and, each time the sample clock passes a
    /// period, the mixed output of the four channels is appended.
    pub open spec fn cycled(old: &APU, new: &APU) -> bool {
        if !old.spec_sound_enabled() {
            new == old
        } else {
            let c1 = old.channel1.spec_cycle();
            let c2 = old.channel2.spec_cycle();
            let c3 = old.channel3.spec_cycle();
            let c4 = old.channel4.spec_cycle();
            let counter = old.sample_counter + SAMPLE_TICK;
            &&& new.channel1 == c1
            &&& new.channel2 == c2
            &&& new.channel3 == c3
            &&& new.channel4 == c4
            &&& new.nr50 == old.nr50 && new.nr51 == old.nr51 && new.nr52 == old.nr52
            &&& if counter >= SAMPLE_PERIOD {
                &&& new.amps@ == old.amps@.push(
                    mix(c1.spec_data(), c2.spec_data(), c3.spec_data(), c4.spec_data()),
                )
                &&& new.sample_counter == counter - SAMPLE_PERIOD
            } else {
                &&& new.amps@ == old.amps@
                &&& new.sample_counter == counter
            }
        }
    }

    /// Everything but the four channels is the same.
    pub open spec fn same_but_channels(a: &APU, b: &APU) -> bool {
        &&& a.nr50 == b.nr50 && a.nr51 == b.nr51 && a.nr52 == b.nr52
        &&& a.amps@ == b.amps@
        &&& a.sample_counter == b.sample_counter
    }

    pub open spec fn spec_get(&self, address: usize) -> u8 {
        if 0xFF10 <= address <= 0xFF14 {
            self.channel1.spec_get(address)
        } else if 0xFF16 <= address <= 0xFF19 {
            self.channel2.spec_get(address)
        } else if 0xFF1A <= address <= 0xFF1E || 0xFF30 <= address <= 0xFF3F {
            self.channel3.spec_get(address)
        } else if 0xFF20 <= address <= 0xFF23 {
            self.channel4.spec_get(address)
        } else if address == 0xFF24 {
            self.nr50
        } else if address == 0xFF25 {
            self.nr51
        } else {
            self.nr52
        }
    }

    pub fn cycle(&mut self)
        requires
            old(self).wf(),
        ensures
            APU::cycled(old(self), final(self)),
            final(self).wf(),
    {
        if !self.is_sound_enable() {
            return ;
        }
        self.channel1.cycle();
        self.channel2.cycle();
        self.channel3.cycle();
        self.channel4.cycle();
        self.sample_counter = self.sample_counter + SAMPLE_TICK;
        if self.sample_counter >= SAMPLE_PERIOD {
            let ch1 = self.channel1.get_data();
            let ch2 = self.channel2.get_data();
            let ch3 = self.channel3.get_data();
            let ch4 = self.channel4.get_data();
            let sample = 2 * (ch1 as u16 + ch2 as u16 + ch3 as u16) + ch4 as u16;
            self.amps.push(sample);
            self.sample_counter = self.sample_counter - SAMPLE_PERIOD;
        }
    }

    /// Hands out the samples taken so far, in eighths (value / 8 is the
    /// sample), and starts a new batch.
    pub fn get_data(&mut self) -> (r: Vec<u16>)
        ensures
            r@ == old(self).amps@,
            final(self).amps@ == Seq::<u16>::empty(),
            final(self).channel1 == old(self).channel1,
            final(self).channel2 == old(self).channel2,
            final(self).channel3 == old(self).channel3,
            final(self).channel4 == old(self).channel4,
            final(self).nr50 == old(self).nr50 && final(self).nr51 == old(self).nr51 && final(self).nr52 == old(self).nr52,
            final(self).sample_counter == old(self).sample_counter,
    {
        let mut taken = Vec::new();
        std::mem::swap(&mut taken, &mut self.amps);
        taken
    }

    fn is_sound_enable(&self) -> (r: bool)
        ensures
            r == self.spec_sound_enabled(),
    {
        (self.nr52 >> 7) & 1 == 1
    }

    /// A frame sequencer step for all four channels.
    pub fn clock(&mut self, step: u8)
        requires
            old(self).wf(),
        ensures
            final(self).channel1 == old(self).channel1.spec_clock(step),
            final(self).channel2 == old(self).channel2.spec_clock(step),
            final(self).channel3 == old(self).channel3.spec_clock(step),
            final(self).channel4 == old(self).channel4.spec_clock(step),
            APU::same_but_channels(old(self), final(self)),
            final(self).wf(),
    {
        self.channel1.clock(step);
        self.channel2.clock(step);
        self.channel3.clock(step);
        self.channel4.clock(step);
    }

    /// A write of `val` to the sound register or wave RAM byte at `address`
    /// turns `old` into `new`.
    pub open spec fn set_to(old: &APU, address: usize, val: u8, new: &APU) -> bool {
        &&& 0xFF10 <= address <= 0xFF14 ==> new.channel1 == old.channel1.spec_set(address, val)
        &&& !(0xFF10 <= address <= 0xFF14) ==> new.channel1 == old.channel1
        &&& 0xFF16 <= address <= 0xFF19 ==> new.channel2 == old.channel2.spec_set(address, val)
        &&& !(0xFF16 <= address <= 0xFF19) ==> new.channel2 == old.channel2
        &&& 0xFF1A <= address <= 0xFF1E ==> new.channel3 == old.channel3.spec_set(address, val)
        &&& 0xFF30 <= address <= 0xFF3F ==> {
            &&& new.channel3.wave_pattern_ram@ == old.channel3.wave_pattern_ram@.update(
                address - 0xFF30,
                val,
            )
            &&& new.channel3 == (Channel3 {
                wave_pattern_ram: new.channel3.wave_pattern_ram,
                wave_pattern: new.channel3.wave_pattern,
                ..old.channel3
            })
        }
        &&& !(0xFF1A <= address <= 0xFF1E || 0xFF30 <= address <= 0xFF3F) ==> new.channel3 == old.channel3
        &&& 0xFF20 <= address <= 0xFF23 ==> new.channel4 == old.channel4.spec_set(address, val)
        &&& !(0xFF20 <= address <= 0xFF23) ==> new.channel4 == old.channel4
        &&& new.nr50 == if address == 0xFF24 { val } else { old.nr50 }
        &&& new.nr51 == if address == 0xFF25 { val } else { old.nr51 }
        &&& new.nr52 == if address == 0xFF26 { val } else { old.nr52 }
        &&& new.amps@ == old.amps@
        &&& new.sample_counter == old.sample_counter
    }

    pub fn set(&mut self, address: usize, val: u8)
        requires
            old(self).wf(),
            is_apu_address(address),
        ensures
            final(self).wf(),
            APU::set_to(old(self), address, val, final(self)),
    {
        if 0xFF10 <= address && address <= 0xFF14 {
            self.channel1.set(address, val)
        } else if 0xFF16 <= address && address <= 0xFF19 {
            self.channel2.set(address, val)
        } else if 0xFF1A <= address && address <= 0xFF1E {
            self.channel3.set(address, val)
        } else if 0xFF30 <= address && address <= 0xFF3F {
            self.channel3.set(address, val)
        } else if 0xFF20 <= address && address <= 0xFF23 {
            self.channel4.set(address, val)
        } else if address == 0xFF24 {
            self.nr50 = val
        } else if address == 0xFF25 {
            self.nr51 = val
        } else {
            self.nr52 = val
        }
    }

    pub fn get(&self, address: usize) -> (r: u8)
        requires
            is_apu_address(address),
        ensures
            r == self.spec_get(address),
    {
        if 0xFF10 <= address && address <= 0xFF14 {
            self.channel1.get(address)
        } else if 0xFF16 <= address && address <= 0xFF19 {
            self.channel2.get(address)
        } else if 0xFF1A <= address && address <= 0xFF1E {
            self.channel3.get(address)
        } else if 0xFF30 <= address && address <= 0xFF3F {
            self.channel3.get(address)
        } else if 0xFF20 <= address && address <= 0xFF23 {
            self.channel4.get(address)
        } else if address == 0xFF24 {
            self.nr50
        } else if address == 0xFF25 {
            self.nr51
        } else {
            self.nr52
        }
    }

    pub fn nr52(&self) -> (r: u8)
        ensures
            r == self.nr52,
    {
        self.nr52
    }

    pub fn nr51(&self) -> (r: u8)
        ensures
            r == self.nr51,
    {
        self.nr51
    }

    pub fn nr50(&self) -> (r: u8)
        ensures
            r == self.nr50,
    {
        self.nr50
    }
}

} // verus!
