pub mod lcd_transfer;
pub mod oam_search;
pub mod pixel_fetcher;
pub mod pixel_fifo;
pub mod pixel_type;
pub mod sprite_pixel_fetcher;
pub mod sprite_pixel_fifo;

use vstd::prelude::*;
use crate::mmu::interrupt_flag::InterruptRequest;
use crate::mmu::lcdc::bit;
use crate::mmu::lcdstat::{LCDSTAT, Mode};
use crate::mmu::sprite::Sprite;
use crate::mmu::{MMU, MmuState};
use crate::ppu::lcd_transfer::{LCDTransfer, LCD_HEIGHT, LCD_WIDTH};
use crate::ppu::oam_search::OAMSearch;

verus! {

/// A frame is 154 lines of 456 cycles; lines 144 to 153 are VBlank.
pub const SCANLINES: u8 = 154;

pub const SCANLINE_CYCLES: u16 = 456;

pub const VBLANK_LINE: u8 = 144;

/// The line and cycle after one more cycle of the frame.
pub open spec fn next_dot(scanline: u8, cycle: u16) -> (u8, u16) {
    if cycle + 1 >= SCANLINE_CYCLES {
        if scanline + 1 >= SCANLINES {
            (0, 0)
        } else {
            ((scanline + 1) as u8, 0)
        }
    } else {
        (scanline, (cycle + 1) as u16)
    }
}

/// LY after the cycle at `scanline`, `cycle`: it takes the line's number at
/// the line's first cycle, and line 153 reads as 0 from its fifth cycle.
pub open spec fn ly_after(scanline: u8, cycle: u16, ly: u8) -> u8 {
    if cycle == 0 && scanline < SCANLINES {
        scanline
    } else if cycle == 4 && scanline == 153 {
        0
    } else {
        ly
    }
}

/// Whether the cycle at `scanline`, `cycle` is the last of its frame.
pub open spec fn frame_ends(scanline: u8, cycle: u16) -> bool {
    cycle + 1 >= SCANLINE_CYCLES && scanline + 1 >= SCANLINES
}

/// The position of a cycle within its frame.
pub open spec fn dot_index(scanline: u8, cycle: u16) -> int {
    scanline * SCANLINE_CYCLES + cycle
}

/// A frame is 70224 cycles: each cycle moves the position in the frame on
/// by one, and the last one comes back to the first.
pub proof fn lemma_frame_period(scanline: u8, cycle: u16)
    requires
        scanline < SCANLINES,
        cycle < SCANLINE_CYCLES,
    ensures
        dot_index(next_dot(scanline, cycle).0, next_dot(scanline, cycle).1) == (dot_index(scanline, cycle) + 1) % 70224,
        next_dot(scanline, cycle).0 < SCANLINES,
        next_dot(scanline, cycle).1 < SCANLINE_CYCLES,
{
}

/// STAT with its two mode bits set to `mode`.
pub open spec fn stat_with_mode(stat: u8, mode: Mode) -> u8 {
    (stat & 0b1111_1100) | mode.bits()
}

/// STAT with its coincidence bit (LY equals LYC) set or cleared.
pub open spec fn stat_with_coincidence(stat: u8, coincide: bool) -> u8 {
    if coincide {
        stat | 0b0000_0100
    } else {
        stat & 0b1111_1011
    }
}

/// Bit `i` of STAT: 3 enables the HBlank interrupt, 4 the VBlank one, 5 the
/// OAM one and 6 the LY = LYC one.
pub open spec fn stat_bit(stat: u8, i: u8) -> bool {
    (stat >> i) & 1 == 1
}

/// Setting the mode or the coincidence bit leaves the interrupt enable bits.
proof fn lemma_stat_enable_bits(stat: u8, mode: Mode, coincide: bool)
    ensures
        stat_bit(stat_with_mode(stat, mode), 3) == stat_bit(stat, 3),
        stat_bit(stat_with_mode(stat, mode), 4) == stat_bit(stat, 4),
        stat_bit(stat_with_mode(stat, mode), 5) == stat_bit(stat, 5),
        stat_bit(stat_with_mode(stat, mode), 6) == stat_bit(stat, 6),
        stat_bit(stat_with_coincidence(stat, coincide), 3) == stat_bit(stat, 3),
        stat_bit(stat_with_coincidence(stat, coincide), 4) == stat_bit(stat, 4),
        stat_bit(stat_with_coincidence(stat, coincide), 5) == stat_bit(stat, 5),
        stat_bit(stat_with_coincidence(stat, coincide), 6) == stat_bit(stat, 6),
        Mode::from_bits(stat_with_mode(stat, mode) & 0b11) == mode,
{
    let b = mode.bits();
    assert(b <= 3);
    assert(forall|x: u8, b: u8|
        b <= 3 ==> {
            &&& (((x & 0xFC) | b) >> 3u8) & 1 == (x >> 3u8) & 1
            &&& (((x & 0xFC) | b) >> 4u8) & 1 == (x >> 4u8) & 1
            &&& (((x & 0xFC) | b) >> 5u8) & 1 == (x >> 5u8) & 1
            &&& (((x & 0xFC) | b) >> 6u8) & 1 == (x >> 6u8) & 1
            &&& ((x | 4) >> 3u8) & 1 == (x >> 3u8) & 1
            &&& ((x | 4) >> 4u8) & 1 == (x >> 4u8) & 1
            &&& ((x | 4) >> 5u8) & 1 == (x >> 5u8) & 1
            &&& ((x | 4) >> 6u8) & 1 == (x >> 6u8) & 1
            &&& ((x & 0xFB) >> 3u8) & 1 == (x >> 3u8) & 1
            &&& ((x & 0xFB) >> 4u8) & 1 == (x >> 4u8) & 1
            &&& ((x & 0xFB) >> 5u8) & 1 == (x >> 5u8) & 1
            &&& ((x & 0xFB) >> 6u8) & 1 == (x >> 6u8) & 1
            &&& ((x & 0xFC) | b) & 3 == b
        }) by (bit_vector);
}

/// What the line timing does to STAT at a cycle of the frame, given LY and
/// LYC as the bus holds them: the new STAT, and whether a STAT interrupt
/// condition holds (the enable bits taken from `stat`). Lines 0 to 143 enter
/// OAM search at cycle 4 and the transfer at cycle 84; line 144 enters VBlank
/// at cycle 4; the coincidence bit is updated at cycle 4 of lines 1 to 153
/// and at cycle 12 of line 153.
pub open spec fn line_stat(scanline: int, cycle: int, stat: u8, ly: u8, lyc: u8) -> (u8, bool) {
    let coincide = ly == lyc;
    let lyc_int = coincide && stat_bit(stat, 6);
    let oam_int = stat_bit(stat, 5);
    let vblank_int = stat_bit(stat, 4);
    if scanline == 0 {
        if cycle == 0 {
            (stat, vblank_int)
        } else if cycle == 4 {
            (stat_with_mode(stat, Mode::OAMSearch), oam_int)
        } else if cycle == 84 {
            (stat_with_mode(stat, Mode::LCDTransfer), false)
        } else {
            (stat, false)
        }
    } else if scanline <= 143 {
        if cycle == 0 {
            (stat, oam_int)
        } else if cycle == 4 {
            (stat_with_mode(stat_with_coincidence(stat, coincide), Mode::OAMSearch), lyc_int)
        } else if cycle == 84 {
            (stat_with_mode(stat, Mode::LCDTransfer), false)
        } else {
            (stat, false)
        }
    } else if scanline == 144 {
        if cycle == 0 {
            (stat, false)
        } else if cycle == 4 {
            (stat_with_mode(stat_with_coincidence(stat, coincide), Mode::VBlank), lyc_int || vblank_int || oam_int)
        } else if cycle >= 5 {
            (stat, vblank_int)
        } else {
            (stat, false)
        }
    } else if scanline <= 152 {
        if cycle == 4 {
            (stat_with_coincidence(stat, coincide), lyc_int || oam_int)
        } else {
            (stat, false)
        }
    } else {
        if cycle == 4 || cycle == 12 {
            (stat_with_coincidence(stat, coincide), vblank_int || oam_int || lyc_int)
        } else {
            (stat, vblank_int)
        }
    }
}

/// A frame of the LCD: 160 columns of 144 shades.
pub open spec fn blank_frame(f: [[u8; 144]; 160]) -> bool {
    forall|i: int, j: int| 0 <= i < LCD_WIDTH && 0 <= j < LCD_HEIGHT ==> f@[i]@[j] == 0
}

/// The pixel processing unit: the scanline timing, the OAM scan and the
/// pixel transfer into one of two frames, the other being the last finished.
pub struct PPU {
    pub enable: bool,
    pub scanline: u8,
    pub init_enable: bool,
    pub sprite_buffer: Vec<Sprite>,
    pub oam_search: OAMSearch,
    pub lcd_transfer: LCDTransfer,
    pub scanline_cycle: u16,
    pub lcd0: [[u8; 144]; 160],
    pub lcd1: [[u8; 144]; 160],
    pub current_buffer: usize,
    pub stat_interrupt_line: bool,
}

impl Default for PPU {
    fn default() -> (r: Self)
        ensures
            r.wf(),
            !r.enable,
            r.scanline == 0 && r.scanline_cycle == 0,
            r.current_buffer == 0,
            blank_frame(r.lcd0) && blank_frame(r.lcd1),
    {
        Self {
            scanline: 0,
            enable: false,
            init_enable: false,
            scanline_cycle: 0,
            sprite_buffer: Vec::new(),
            oam_search: OAMSearch::default(),
            lcd_transfer: LCDTransfer::default(),
            lcd0: [[0; 144]; 160],
            lcd1: [[0; 144]; 160],
            current_buffer: 0,
            stat_interrupt_line: false,
        }
    }
}

impl PPU {
    pub open spec fn wf(&self) -> bool {
        &&& self.scanline < SCANLINES
        &&& self.scanline_cycle < SCANLINE_CYCLES
        &&& self.current_buffer < 2
        &&& self.oam_search.wf()
        &&& self.lcd_transfer.wf()
    }

    /// The frame that is being drawn.
    pub open spec fn drawing(&self) -> [[u8; 144]; 160] {
        if self.current_buffer == 0 {
            self.lcd0
        } else {
            self.lcd1
        }
    }

    /// The last finished frame.
    pub open spec fn shown(&self) -> [[u8; 144]; 160] {
        if self.current_buffer == 0 {
            self.lcd1
        } else {
            self.lcd0
        }
    }

    fn clear_frames(&mut self)
        ensures
            blank_frame(final(self).lcd0) && blank_frame(final(self).lcd1),
            *final(self) == (PPU { lcd0: final(self).lcd0, lcd1: final(self).lcd1, ..*old(self) }),
    {
        self.lcd0 = [[0; 144]; 160];
        self.lcd1 = [[0; 144]; 160];
    }

    /// Frame `i` of the two.
    pub open spec fn frame(self, i: usize) -> [[u8; 144]; 160] {
        if i == 0 {
            self.lcd0
        } else {
            self.lcd1
        }
    }

    /// A cycle of the pixel transfer within a display cycle, on the bus `m`:
    /// the transfer draws into the frame being drawn, and the sprite buffer
    /// is what it leaves, or empty once the line is `done`.
    pub open spec fn transfer_step(self, m: MmuState, next: PPU, done: bool) -> bool {
        exists|sprites2: Seq<Sprite>|
            #[trigger] self.lcd_transfer.cycled(
                m,
                self.sprite_buffer@,
                self.drawing(),
                next.lcd_transfer,
                sprites2,
                next.frame(self.current_buffer),
                done,
            ) && (!done ==> next.sprite_buffer@ == sprites2)
    }

    /// One cycle of the display, as `cycle` makes it: from the display `self`
    /// and the bus `m` to the display `next` and the bus `m2`.
    pub open spec fn cycled(self, m: MmuState, next: PPU, m2: MmuState) -> bool {
        &&& next.wf()
        &&& m2.wf()
        &&& m2 == (MmuState { ly: m2.ly, lcdstat: m2.lcdstat, interrupt_flags: m2.interrupt_flags, ..m })
        &&& (self.enable && !bit(m.lcdc, 7) ==> {
            &&& !next.enable
            &&& next.scanline == 0 && next.scanline_cycle == 0
            &&& m2.ly == 0
            &&& m2.lcdstat == stat_with_mode(m.lcdstat, Mode::HBlank)
            &&& m2.interrupt_flags == m.interrupt_flags
            &&& blank_frame(next.lcd0) && blank_frame(next.lcd1)
            &&& next.sprite_buffer@.len() == 0
        })
        &&& (!self.enable && !bit(m.lcdc, 7) ==> next == self && m2 == m)
        &&& (bit(m.lcdc, 7) ==> {
            let stat1 = if self.enable {
                m.lcdstat
            } else {
                stat_with_mode(m.lcdstat, Mode::OAMSearch)
            };
            let (stat2, cond) = line_stat(self.scanline as int, self.scanline_cycle as int, stat1, m.ly, m.lyc);
            let done = m2.lcdstat != stat2;
            let cond2 = cond || (done && stat_bit(stat2, 3));
            let raised = if self.scanline == VBLANK_LINE && self.scanline_cycle == 0 {
                m.interrupt_flags | InterruptRequest::VBlank.mask()
            } else {
                m.interrupt_flags
            };
            &&& next.enable
            &&& (next.scanline, next.scanline_cycle) == next_dot(self.scanline, self.scanline_cycle)
            &&& m2.ly == ly_after(self.scanline, self.scanline_cycle, m.ly)
            &&& done ==> {
                &&& Mode::from_bits(stat2 & 0b11) == Mode::LCDTransfer
                &&& m2.lcdstat == stat_with_mode(stat2, Mode::HBlank)
                &&& self.lcd_transfer.x + 1 == LCD_WIDTH
                &&& next.sprite_buffer@.len() == 0
            }
            &&& next.stat_interrupt_line == cond2
            &&& m2.interrupt_flags == if !self.stat_interrupt_line && cond2 {
                raised | InterruptRequest::LCDStat.mask()
            } else {
                raised
            }
            &&& next.current_buffer == if frame_ends(self.scanline, self.scanline_cycle) {
                1 - self.current_buffer
            } else {
                self.current_buffer as int
            }
            &&& self.current_buffer == 0 ==> next.lcd1 == self.lcd1
            &&& self.current_buffer == 1 ==> next.lcd0 == self.lcd0
            &&& ({
                let m_mid = MmuState { ly: ly_after(self.scanline, self.scanline_cycle, m.ly), interrupt_flags: raised, ..m };
                let mode = Mode::from_bits(stat2 & 0b11);
                let drawn = next.frame(self.current_buffer);
                &&& mode == Mode::OAMSearch ==> {
                    &&& self.oam_search.cycled(m_mid, self.sprite_buffer@, next.oam_search, next.sprite_buffer@)
                    &&& next.lcd_transfer == self.lcd_transfer
                    &&& drawn == self.drawing()
                }
                &&& mode == Mode::LCDTransfer ==> {
                    &&& self.transfer_step(m_mid, next, done)
                    &&& next.oam_search == self.oam_search
                }
                &&& (mode == Mode::HBlank || mode == Mode::VBlank) ==> {
                    &&& next.sprite_buffer@ == self.sprite_buffer@
                    &&& next.oam_search == self.oam_search
                    &&& next.lcd_transfer == self.lcd_transfer
                    &&& drawn == self.drawing()
                }
            })
        })
    }

    /// One cycle of the display. Turning the display off resets the line
    /// timing, LY and both frames; while it is on, the line and cycle advance
    /// through the 154 lines of 456 cycles of a frame, LY follows the line,
    /// and VBlank is requested at the first cycle of line 144. Only LY, STAT
    /// and IF change on the bus.
    #[verifier::rlimit(100)]
    #[verifier::spinoff_prover]
    pub fn cycle(&mut self, mmu: &mut MMU)
        requires
            old(self).wf(),
            old(mmu)@.wf(),
        ensures
            old(self).cycled(old(mmu)@, *final(self), final(mmu)@),
    {
        let lcdc = mmu.lcdc();
        let mut stat = mmu.lcdstat();
        if self.enable && !lcdc.is_display_enable() {
            self.scanline_cycle = 0;
            self.scanline = 0;
            mmu.set_ly(0);
            self.enable = false;
            self.clear_frames();
            stat.set_mode(Mode::HBlank);
            self.sprite_buffer.clear();
            mmu.set_lcdstat(stat);
            return ;
        } else if !self.enable && lcdc.is_display_enable() {
            self.enable = true;
            self.init_enable = true;
            stat.set_mode(Mode::OAMSearch);
        }
        if !self.enable {
            return ;
        }
        let mut new_stat_interrupt = self.line_event(&mut stat, mmu);
        let ghost m_mid = mmu@;
        let ghost stat2 = stat@;
        let ghost mut sprites2: Seq<Sprite> = Seq::empty();
        let ghost mut drawn_done = false;
        match stat.mode() {
            Mode::OAMSearch => {
                self.oam_search.cycle(mmu, &mut self.sprite_buffer);
            },
            Mode::LCDTransfer => {
                let done = if self.current_buffer == 0 {
                    self.lcd_transfer.cycle(mmu, &mut self.sprite_buffer, &mut self.lcd0)
                } else {
                    self.lcd_transfer.cycle(mmu, &mut self.sprite_buffer, &mut self.lcd1)
                };
                proof {
                    sprites2 = self.sprite_buffer@;
                    drawn_done = done;
                }
                if done {
                    proof {
                        lemma_stat_enable_bits(stat@, Mode::HBlank, true);
                    }
                    self.sprite_buffer.clear();
                    stat.set_mode(Mode::HBlank);
                    new_stat_interrupt = new_stat_interrupt || stat.hblank_interrupt();
                }
            },
            Mode::HBlank => {},
            Mode::VBlank => {},
        };
        mmu.set_lcdstat(stat);
        if !self.stat_interrupt_line && new_stat_interrupt {
            mmu.request_interrupt(InterruptRequest::LCDStat);
        }
        self.stat_interrupt_line = new_stat_interrupt;
        self.advance_dot();
        proof {
            if Mode::from_bits(stat2 & 0b11) == Mode::LCDTransfer {
                assert(drawn_done == (mmu@.lcdstat != stat2));
                assert(old(self).lcd_transfer.cycled(
                    m_mid,
                    old(self).sprite_buffer@,
                    old(self).drawing(),
                    self.lcd_transfer,
                    sprites2,
                    self.frame(old(self).current_buffer),
                    mmu@.lcdstat != stat2,
                ));
                assert(old(self).transfer_step(m_mid, *self, mmu@.lcdstat != stat2));
            }
        }
    }

    /// Moves on one cycle: the next line after 456 cycles, the next frame
    /// after 154 lines, drawing then into the other frame.
    fn advance_dot(&mut self)
        requires
            old(self).wf(),
        ensures
            final(self).wf(),
            (final(self).scanline, final(self).scanline_cycle) == next_dot(old(self).scanline, old(self).scanline_cycle),
            *final(self) == (PPU {
                scanline: final(self).scanline,
                scanline_cycle: final(self).scanline_cycle,
                current_buffer: final(self).current_buffer,
                ..*old(self)
            }),
            final(self).current_buffer == if frame_ends(old(self).scanline, old(self).scanline_cycle) {
                1 - old(self).current_buffer
            } else {
                old(self).current_buffer as int
            },
    {
        self.scanline_cycle = self.scanline_cycle + 1;
        if self.scanline_cycle >= SCANLINE_CYCLES {
            self.scanline_cycle = 0;
            self.scanline = self.scanline + 1;
            if self.scanline >= SCANLINES {
                self.current_buffer = (self.current_buffer + 1) % 2;
                self.scanline = 0;
            }
        }
    }

    /// What happens at fixed cycles of a line: LY takes the line number, STAT
    /// takes its mode and coincidence bit, and VBlank is requested at the start
    /// of line 144. Returns whether a STAT interrupt condition holds.
    fn line_event(&self, stat: &mut LCDSTAT, mmu: &mut MMU) -> (r: bool)
        requires
            old(mmu)@.wf(),
            self.scanline < SCANLINES,
        ensures
            (final(stat)@, r) == line_stat(
                self.scanline as int,
                self.scanline_cycle as int,
                old(stat)@,
                old(mmu)@.ly,
                old(mmu)@.lyc,
            ),
            final(mmu)@.wf(),
            final(mmu)@ == (MmuState {
                ly: ly_after(self.scanline, self.scanline_cycle, old(mmu)@.ly),
                interrupt_flags: if self.scanline == VBLANK_LINE && self.scanline_cycle == 0 {
                    old(mmu)@.interrupt_flags | InterruptRequest::VBlank.mask()
                } else {
                    old(mmu)@.interrupt_flags
                },
                ..old(mmu)@
            }),
    {
        proof {
            lemma_stat_enable_bits(stat@, Mode::OAMSearch, true);
            lemma_stat_enable_bits(stat@, Mode::OAMSearch, false);
            lemma_stat_enable_bits(stat_with_coincidence(stat@, true), Mode::OAMSearch, true);
            lemma_stat_enable_bits(stat_with_coincidence(stat@, false), Mode::OAMSearch, true);
        }
        let mut new_stat_interrupt = false;
        let scanline = self.scanline;
        let cycle = self.scanline_cycle;
        if scanline == 0 {
            if cycle == 0 {
                mmu.set_ly(0);
                new_stat_interrupt = new_stat_interrupt || stat.vblank_interrupt();
            } else if cycle == 4 {
                stat.set_mode(Mode::OAMSearch);
                new_stat_interrupt = new_stat_interrupt || stat.oam_interrupt();
            } else if cycle == 84 {
                stat.set_mode(Mode::LCDTransfer);
            }
        } else if scanline <= 143 {
            if cycle == 0 {
                new_stat_interrupt = new_stat_interrupt || stat.oam_interrupt();
                mmu.set_ly(scanline);
            } else if cycle == 4 {
                let ly_eq_lyc = mmu.ly() == mmu.lyc();
                new_stat_interrupt = new_stat_interrupt || (ly_eq_lyc && stat.ly_eq_lyc());
                stat.set_coincidence(ly_eq_lyc);
                stat.set_mode(Mode::OAMSearch);
            } else if cycle == 84 {
                stat.set_mode(Mode::LCDTransfer);
            }
        } else if scanline == 144 {
            if cycle == 0 {
                mmu.set_ly(144);
                mmu.request_interrupt(InterruptRequest::VBlank);
            } else if cycle == 4 {
                let ly_eq_lyc = mmu.ly() == mmu.lyc();
                new_stat_interrupt = new_stat_interrupt || (ly_eq_lyc && stat.ly_eq_lyc());
                new_stat_interrupt = new_stat_interrupt || stat.vblank_interrupt();
                new_stat_interrupt = new_stat_interrupt || stat.oam_interrupt();
                stat.set_coincidence(ly_eq_lyc);
                stat.set_mode(Mode::VBlank);
            } else if cycle >= 5 {
                new_stat_interrupt = new_stat_interrupt || stat.vblank_interrupt();
            }
        } else if scanline <= 152 {
            if cycle == 0 {
                mmu.set_ly(scanline);
            } else if cycle == 4 {
                let ly_eq_lyc = mmu.ly() == mmu.lyc();
                new_stat_interrupt = new_stat_interrupt || (ly_eq_lyc && stat.ly_eq_lyc());
                new_stat_interrupt = new_stat_interrupt || stat.oam_interrupt();
                stat.set_coincidence(ly_eq_lyc);
            }
        } else if scanline == 153 {
            new_stat_interrupt = new_stat_interrupt || stat.vblank_interrupt();
            if cycle == 0 {
                mmu.set_ly(153);
            } else if cycle == 4 {
                new_stat_interrupt = new_stat_interrupt || stat.oam_interrupt();
                let ly_eq_lyc = mmu.ly() == mmu.lyc();
                new_stat_interrupt = new_stat_interrupt || (ly_eq_lyc && stat.ly_eq_lyc());
                stat.set_coincidence(ly_eq_lyc);
                mmu.set_ly(0);
            } else if cycle == 12 {
                new_stat_interrupt = new_stat_interrupt || stat.oam_interrupt();
                let ly_eq_lyc = mmu.ly() == mmu.lyc();
                new_stat_interrupt = new_stat_interrupt || (ly_eq_lyc && stat.ly_eq_lyc());
                stat.set_coincidence(ly_eq_lyc);
            }
        }
        new_stat_interrupt
    }

    /// The last finished frame, column by column.
    pub fn lcd(&self) -> (r: [[u8; 144]; 160])
        ensures
            r == self.shown(),
    {
        if self.current_buffer == 0 {
            self.lcd1
        } else {
            self.lcd0
        }
    }
}

} // verus!
