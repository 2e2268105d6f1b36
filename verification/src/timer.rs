use vstd::prelude::*;
use crate::apu::APU;
use crate::mmu::tac::{clock_select_bit, TAC};

verus! {

broadcast use crate::bits::group_bits;

/// Bit `n` of a 16-bit value.
pub open spec fn bit16(v: u16, n: u16) -> u16 {
    (v >> n) & 1
}

/// `n` goes from 1 to 0 between `before` and `after`.
pub open spec fn falling_edge(before: u16, after: u16, n: u16) -> bool {
    bit16(before, n) == 1 && bit16(after, n) == 0
}

pub struct Timer {
    pub div: u16,
    pub tima: u8,
    pub tma: u8,
    pub tac: u8,
    pub apu_clock_step: u8,
}

impl Default for Timer {
    fn default() -> (r: Self)
        ensures
            r == (Timer { div: 0, tima: 0, tma: 0, tac: 0, apu_clock_step: 0 }),
    {
        Self { div: 0, tima: 0, tma: 0, tac: 0, apu_clock_step: 0 }
    }
}

impl Timer {
    /// The frame sequencer step is one of eight.
    pub open spec fn wf(self) -> bool {
        self.apu_clock_step < 8
    }

    /// TIMA ticks on this cycle: the timer is on and the selected divider bit falls.
    pub open spec fn tima_ticks(self) -> bool {
        &&& (self.tac >> 2) & 1 == 1
        &&& falling_edge(self.div, self.div.wrapping_add(1), clock_select_bit(self.tac) as u16)
    }

    /// With the timer on, TIMA ticks once every 1024, 16, 64 or 256 cycles
    /// as the clock select of TAC is 0, 1, 2 or 3 (4096, 262144, 65536 or
    /// 16384 Hz): exactly on the cycles that bring the divider to a multiple
    /// of that period. With the timer off it never ticks.
    pub proof fn lemma_tima_period(self)
        ensures
            (self.tac / 4) % 2 == 0 ==> !self.tima_ticks(),
            (self.tac / 4) % 2 == 1 ==> ({
                let n = self.div as int + 1;
                &&& self.tac % 4 == 0 ==> (self.tima_ticks() <==> n % 1024 == 0)
                &&& self.tac % 4 == 1 ==> (self.tima_ticks() <==> n % 16 == 0)
                &&& self.tac % 4 == 2 ==> (self.tima_ticks() <==> n % 64 == 0)
                &&& self.tac % 4 == 3 ==> (self.tima_ticks() <==> n % 256 == 0)
            }),
    {
        let d = self.div;
        let e = self.div.wrapping_add(1);
        let t = self.tac;
        assert({
            &&& ((t >> 2) & 1 == 1) == ((t / 4) % 2 == 1)
            &&& t & 0b11 == t % 4
            &&& ((d >> 9u16) & 1 == 1 && (e >> 9u16) & 1 == 0) == (d % 1024 == 1023)
            &&& ((d >> 3u16) & 1 == 1 && (e >> 3u16) & 1 == 0) == (d % 16 == 15)
            &&& ((d >> 5u16) & 1 == 1 && (e >> 5u16) & 1 == 0) == (d % 64 == 63)
            &&& ((d >> 7u16) & 1 == 1 && (e >> 7u16) & 1 == 0) == (d % 256 == 255)
        }) by (bit_vector)
            requires
                (d == 0xFFFF && e == 0) || (d < 0xFFFF && e == d + 1),
        ;
    }

    /// TIMA passes 0xFF on this cycle.
    pub open spec fn spec_overflows(self) -> bool {
        self.tima_ticks() && self.tima == 0xFF
    }

    /// The frame sequencer is clocked on this cycle: divider bit 13 falls.
    pub open spec fn sequencer_ticks(self) -> bool {
        falling_edge(self.div, self.div.wrapping_add(1), 13)
    }

    /// The timer after one cycle: the divider counts up; TIMA counts on its
    /// ticks and reloads from TMA when it passes 0xFF; the sequencer step moves on.
    pub open spec fn spec_cycle(self) -> Timer {
        Timer {
            div: self.div.wrapping_add(1),
            tima: if !self.tima_ticks() {
                self.tima
            } else if self.tima == 0xFF {
                self.tma
            } else {
                (self.tima + 1) as u8
            },
            apu_clock_step: if self.sequencer_ticks() {
                ((self.apu_clock_step + 1) % 8) as u8
            } else {
                self.apu_clock_step
            },
            ..self
        }
    }

    /// What one timer cycle does to the sound unit: on a sequencer tick all
    /// four channels take the frame sequencer step; otherwise nothing.
    pub open spec fn apu_after_cycle(self, before: APU, after: APU) -> bool {
        if self.sequencer_ticks() {
            &&& after.channel1 == before.channel1.spec_clock(self.apu_clock_step)
            &&& after.channel2 == before.channel2.spec_clock(self.apu_clock_step)
            &&& after.channel3 == before.channel3.spec_clock(self.apu_clock_step)
            &&& after.channel4 == before.channel4.spec_clock(self.apu_clock_step)
            &&& APU::same_but_channels(&before, &after)
        } else {
            after == before
        }
    }

    pub open spec fn spec_get(self, address: usize) -> u8 {
        if address == 0xFF04 {
            (self.div >> 8) as u8
        } else if address == 0xFF05 {
            self.tima
        } else if address == 0xFF06 {
            self.tma
        } else {
            self.tac
        }
    }

    pub open spec fn spec_set(self, address: usize, val: u8) -> Timer {
        if address == 0xFF04 {
            Timer { div: 0, ..self }
        } else if address == 0xFF05 {
            Timer { tima: val, ..self }
        } else if address == 0xFF06 {
            Timer { tma: val, ..self }
        } else {
            Timer { tac: val, ..self }
        }
    }

    /// One machine cycle; returns true when TIMA passes 0xFF (the timer
    /// interrupt is due). The frame sequencer clocks the APU on its ticks.
    pub fn cycle(&mut self, apu: &mut APU) -> (r: bool)
        requires
            old(self).wf(),
            old(apu).wf(),
        ensures
            r == old(self).spec_overflows(),
            *final(self) == old(self).spec_cycle(),
            final(self).wf(),
            final(apu).wf(),
            old(self).apu_after_cycle(*old(apu), *final(apu)),
    {
        let prev_div = self.div;
        self.div = self.div.wrapping_add(1);
        let tac = TAC::from(self.tac);
        let mut tima_overflow = false;
        if tac.is_timer_enable() {
            let tima_clock_select = tac.clock_select();
            let prev_div_tima_bit = (prev_div >> tima_clock_select) & 1;
            let curr_div_tima_bit = (self.div >> tima_clock_select) & 1;
            if prev_div_tima_bit == 1 && curr_div_tima_bit == 0 {
                self.tima = match self.tima.checked_add(1) {
                    Some(tima) => tima,
                    None => {
                        tima_overflow = true;
                        self.tma
                    },
                };
            }
        }
        let prev_div_sound_clock_bit = (prev_div >> 13) & 1;
        let curr_div_sound_clock_bit = (self.div >> 13) & 1;
        if prev_div_sound_clock_bit == 1 && curr_div_sound_clock_bit == 0 {
            apu.clock(self.apu_clock_step);
            self.apu_clock_step = (self.apu_clock_step + 1) % 8;
        }
        tima_overflow
    }

    pub fn set(&mut self, address: usize, val: u8)
        requires
            0xFF04 <= address <= 0xFF07,
        ensures
            *final(self) == old(self).spec_set(address, val),
    {
        match address {
            0xFF04 => self.div = 0,
            0xFF05 => self.tima = val,
            0xFF06 => self.tma = val,
            _ => self.tac = val,
        }
    }

    pub fn get(&self, address: usize) -> (r: u8)
        requires
            0xFF04 <= address <= 0xFF07,
        ensures
            r == self.spec_get(address),
    {
        match address {
            0xFF04 => (self.div >> 8) as u8,
            0xFF05 => self.tima,
            0xFF06 => self.tma,
            _ => self.tac,
        }
    }
}

} // verus!
