use vstd::prelude::*;
use crate::mmu::sprite::{Flag, Sprite};
use crate::mmu::{MMU, MmuState};
use crate::ppu::pixel_fetcher::{PixelFetcher, Step, fetcher_stepped, reset_fetcher};
use crate::ppu::pixel_fifo::PixelFifo;
use crate::ppu::pixel_type::PixelType;
use crate::ppu::sprite_pixel_fetcher::SpritePixelFetcher;
use crate::ppu::sprite_pixel_fifo::SpritePixelFifo;

verus! {

/// The LCD is 160 pixels wide and 144 lines high.
pub const LCD_WIDTH: usize = 160;

pub const LCD_HEIGHT: usize = 144;

/// The shade that background palette `bgp` gives colour number `index`.
pub open spec fn bg_shade(bgp: u8, index: u8) -> u8 {
    (bgp >> (2 * index)) & 0b11
}

/// The shade that an object palette gives colour number `index`; colour 0
/// is transparent and reads as 0.
pub open spec fn obj_shade(obp: u8, index: u8) -> u8 {
    if index == 0 {
        0
    } else {
        (obp >> (2 * index)) & 0b11
    }
}

/// The first pixel queued in the sprite FIFO, if any.
pub open spec fn sprite_head(fifo: Seq<(u8, Flag)>) -> Option<(u8, Flag)> {
    if fifo.len() > 0 {
        Some(fifo[0])
    } else {
        None
    }
}

/// The shade of a pixel made of the background colour number `bg` and the
/// sprite pixel queued with it, if any, through the palettes on the bus: an
/// opaque sprite pixel shows, in the object palette its flag names, unless
/// its flag puts it behind a background colour other than 0.
pub open spec fn pixel_shade(bg: u8, sprite: Option<(u8, Flag)>, m: MmuState) -> u8 {
    match sprite {
        Some((px, flag)) => if (!((flag.0 >> 7u8) & 1 == 1) && px > 0) || (bg == 0 && px > 0) {
            if !((flag.0 >> 4u8) & 1 == 1) {
                obj_shade(m.obp0, px)
            } else {
                obj_shade(m.obp1, px)
            }
        } else {
            bg_shade(m.bgp, bg)
        },
        None => bg_shade(m.bgp, bg),
    }
}

/// The transfer once a line has started: on its first cycle the window is
/// armed for the line when LY equals WY, and SCX % 8 pixels are set to be
/// dropped.
pub open spec fn line_started(t: LCDTransfer, m: MmuState) -> LCDTransfer {
    if t.is_initial_scanline {
        LCDTransfer {
            window_line: t.window_line || m.ly == m.wy,
            pixel_to_discard: m.scx % 8,
            is_initial_scanline: false,
            ..t
        }
    } else {
        t
    }
}

/// Whether the fetch switches to the window at this pixel: no pixel is left
/// to drop, the window is on in LCDC and armed for the line, and the column
/// has reached WX - 7.
pub open spec fn window_starts(t: LCDTransfer, m: MmuState) -> bool {
    &&& t.pixel_to_discard == 0
    &&& !t.pixel_fetcher.is_window_mode
    &&& (m.lcdc >> 0u8) & 1 == 1 && (m.lcdc >> 5u8) & 1 == 1
    &&& t.window_line
    &&& t.x >= m.wx.wrapping_sub(7)
}

/// Whether a cycle of the transfer draws a pixel: no sprite is being
/// fetched, the window does not start, eight pixels or more are queued, none
/// is left to drop, and no buffered sprite starts at or before the column.
pub open spec fn draws(t: LCDTransfer, m: MmuState, sprites: Seq<Sprite>) -> bool {
    let u = line_started(t, m);
    &&& u.pixel_fetcher.sprite_pixel_fetcher.current_step is Idle
    &&& !window_starts(u, m)
    &&& u.pixel_fifo@.len() >= 8
    &&& u.pixel_to_discard == 0
    &&& first_sprite_at(sprites, u.x as int) is None
}

/// Whether the cycle reaches the pixel stage: no sprite is being fetched,
/// the window does not start, and eight pixels or more are queued.
pub open spec fn at_pixel(u: LCDTransfer, m: MmuState) -> bool {
    &&& u.pixel_fetcher.sprite_pixel_fetcher.current_step is Idle
    &&& !window_starts(u, m)
    &&& u.pixel_fifo@.len() >= 8
}

/// The sprite FIFO with its first pixel taken, if it has one.
pub open spec fn sprite_popped(q: Seq<(u8, Flag)>) -> Seq<(u8, Flag)> {
    if q.len() > 0 {
        q.drop_first()
    } else {
        q
    }
}

/// What a cycle of the transfer does to the FIFOs and the fetcher, from the
/// transfer `u` once its line has started: a sprite fetch under way takes the
/// cycle; a window start empties the pixel FIFO and restarts the fetch on the
/// window; with fewer than eight pixels queued the fetcher takes the cycle;
/// a pixel to drop is popped from both FIFOs before the fetcher's cycle; a
/// sprite that starts here begins its fetch; otherwise the drawn pixel is
/// popped from both FIFOs before the fetcher's cycle, and when it ends the
/// line (`r`) the FIFOs are emptied and the fetcher is reset.
pub open spec fn pipeline_stepped(
    u: LCDTransfer,
    m: MmuState,
    sprites: Seq<Sprite>,
    next: LCDTransfer,
    r: bool,
) -> bool {
    if !(u.pixel_fetcher.sprite_pixel_fetcher.current_step is Idle) {
        fetcher_stepped(
            u.pixel_fetcher,
            m,
            u.pixel_fifo@,
            u.sprite_pixel_fifo@,
            next.pixel_fetcher,
            next.pixel_fifo@,
            next.sprite_pixel_fifo@,
        )
    } else if window_starts(u, m) {
        &&& next.pixel_fifo@ == Seq::<PixelType>::empty()
        &&& next.sprite_pixel_fifo@ == u.sprite_pixel_fifo@
        &&& next.pixel_fetcher == (PixelFetcher {
            is_window_mode: true,
            x_position_counter: 0,
            current_step: Step::FetchTileDataIndex,
            cycle_available: 1,
            ..u.pixel_fetcher
        })
    } else if u.pixel_fifo@.len() < 8 {
        fetcher_stepped(
            u.pixel_fetcher,
            m,
            u.pixel_fifo@,
            u.sprite_pixel_fifo@,
            next.pixel_fetcher,
            next.pixel_fifo@,
            next.sprite_pixel_fifo@,
        )
    } else if u.pixel_to_discard > 0 {
        fetcher_stepped(
            u.pixel_fetcher,
            m,
            u.pixel_fifo@.drop_first(),
            sprite_popped(u.sprite_pixel_fifo@),
            next.pixel_fetcher,
            next.pixel_fifo@,
            next.sprite_pixel_fifo@,
        )
    } else if first_sprite_at(sprites, u.x as int) is Some {
        &&& next.pixel_fifo@ == u.pixel_fifo@
        &&& next.sprite_pixel_fifo@ == u.sprite_pixel_fifo@
        &&& next.pixel_fetcher == (PixelFetcher {
            sprite_pixel_fetcher: SpritePixelFetcher {
                cycle_available: 1,
                current_step: crate::ppu::sprite_pixel_fetcher::Step::FetchTileDataLow {
                    sprite: sprites[first_sprite_at(sprites, u.x as int).unwrap()],
                },
            },
            ..u.pixel_fetcher
        })
    } else if !r {
        fetcher_stepped(
            u.pixel_fetcher,
            m,
            u.pixel_fifo@.drop_first(),
            sprite_popped(u.sprite_pixel_fifo@),
            next.pixel_fetcher,
            next.pixel_fifo@,
            next.sprite_pixel_fifo@,
        )
    } else {
        &&& next.pixel_fifo@ == Seq::<PixelType>::empty()
        &&& next.sprite_pixel_fifo@ == Seq::<(u8, Flag)>::empty()
        &&& next.window_line == (u.window_line && m.ly != 143)
        &&& next.pixel_to_discard == u.pixel_to_discard
        &&& exists|f2: PixelFetcher, q2: Seq<PixelType>, sq2: Seq<(u8, Flag)>|
            #[trigger] fetcher_stepped(
                u.pixel_fetcher,
                m,
                u.pixel_fifo@.drop_first(),
                sprite_popped(u.sprite_pixel_fifo@),
                f2,
                q2,
                sq2,
            ) && next.pixel_fetcher == reset_fetcher(f2, m.ly == 143)
    }
}

/// Mode 3: pixels are shifted out of the FIFOs onto the current line.
pub struct LCDTransfer {
    pub is_initial_scanline: bool,
    pub pixel_fifo: PixelFifo,
    pub sprite_pixel_fifo: SpritePixelFifo,
    pub pixel_fetcher: PixelFetcher,
    pub x: usize,
    pub pixel_to_discard: u8,
    pub window_line: bool,
}

/// The first sprite of the buffer that starts at or before the next pixel.
pub open spec fn first_sprite_at(buffer: Seq<Sprite>, x: int) -> Option<int>
    decreases buffer.len(),
{
    if buffer.len() == 0 {
        None
    } else if buffer[0].x <= x + 8 {
        Some(0)
    } else {
        match first_sprite_at(buffer.drop_first(), x) {
            Some(i) => Some(i + 1),
            None => None,
        }
    }
}

impl Default for LCDTransfer {
    fn default() -> (r: Self)
        ensures
            r.wf(),
            r.x == 0,
            r.is_initial_scanline,
    {
        Self {
            is_initial_scanline: true,
            pixel_fifo: PixelFifo::default(),
            sprite_pixel_fifo: SpritePixelFifo::default(),
            pixel_fetcher: PixelFetcher::default(),
            x: 0,
            window_line: false,
            pixel_to_discard: 0,
        }
    }
}

impl LCDTransfer {
    pub open spec fn wf(&self) -> bool {
        &&& self.x < LCD_WIDTH
        &&& self.pixel_fifo.wf()
        &&& self.sprite_pixel_fifo.wf()
        &&& self.pixel_fetcher.wf()
    }

    /// One cycle of the transfer, as `cycle` makes it: from the transfer
    /// `self`, the sprite buffer `sprites` and the frame `lcd` to `next`,
    /// `sprites2` and `lcd2`, on the bus `m`, `r` telling whether the line is
    /// done.
    pub open spec fn cycled(
        self,
        m: MmuState,
        sprites: Seq<Sprite>,
        lcd: [[u8; 144]; 160],
        next: LCDTransfer,
        sprites2: Seq<Sprite>,
        lcd2: [[u8; 144]; 160],
        r: bool,
    ) -> bool {
        &&& next.wf()
        &&& forall|i: int, j: int|
            0 <= i < LCD_WIDTH && 0 <= j < LCD_HEIGHT && !(i == self.x && j == m.ly) ==> lcd2@[i]@[j] == lcd@[i]@[j]
        &&& r ==> next.x == 0 && next.is_initial_scanline
        &&& r ==> self.x + 1 == LCD_WIDTH
        &&& r || next.x == self.x || next.x == self.x + 1
        &&& (r || next.x == self.x + 1) == draws(self, m, sprites)
        &&& next.x == self.x && !r ==> lcd2 == lcd
        &&& r || next.x == self.x + 1 ==> {
            &&& self.pixel_fifo@.len() >= 8
            &&& m.ly < LCD_HEIGHT ==> lcd2@[self.x as int]@[m.ly as int] == pixel_shade(
                self.pixel_fifo@[0].index(),
                sprite_head(self.sprite_pixel_fifo@),
                m,
            )
        }
        &&& sprites2.len() <= sprites.len()
        &&& ({
            let u = line_started(self, m);
            &&& sprites2 == if at_pixel(u, m) && u.pixel_to_discard == 0 {
                match first_sprite_at(sprites, u.x as int) {
                    Some(k) => sprites.remove(k),
                    None => sprites,
                }
            } else {
                sprites
            }
            &&& !r ==> {
                &&& !next.is_initial_scanline
                &&& next.window_line == u.window_line
                &&& next.pixel_to_discard == if at_pixel(u, m) && u.pixel_to_discard > 0 {
                    (u.pixel_to_discard - 1) as u8
                } else {
                    u.pixel_to_discard
                }
            }
            &&& pipeline_stepped(u, m, sprites, next, r)
        })
    }

    /// One cycle of the transfer. At most the pixel at the current column of
    /// the current line is drawn; returns true when the line's 160th pixel is
    /// drawn, and the transfer then starts the next line.
    pub fn cycle(&mut self, mmu: &MMU, sprite_buffer: &mut Vec<Sprite>, lcd: &mut [[u8; 144]; 160]) -> (r: bool)
        requires
            old(self).wf(),
            mmu@.wf(),
        ensures
            old(self).cycled(mmu@, old(sprite_buffer)@, *old(lcd), *final(self), final(sprite_buffer)@, *final(lcd), r),
    {
        if self.is_initial_scanline {
            let wy = mmu.wy();
            let ly = mmu.ly();
            if ly == wy {
                self.window_line = true;
            }
            self.pixel_to_discard = mmu.scx() % 8;
            self.is_initial_scanline = false;
        }
        let ghost u = *self;
        let ghost mut f2 = self.pixel_fetcher;
        let ghost mut q2 = self.pixel_fifo@;
        let ghost mut sq2 = self.sprite_pixel_fifo@;
        if !self.pixel_fetcher.fetching_sprite() {
            if self.pixel_to_discard == 0 && !self.pixel_fetcher.is_window_mode() && mmu.lcdc().is_window_enable()
                && self.window_line && self.x >= mmu.wx().wrapping_sub(7) as usize {
                self.pixel_fifo.reset();
                self.pixel_fetcher.fetch_window(mmu, &mut self.pixel_fifo, &mut self.sprite_pixel_fifo);
            } else {
                if self.pixel_fifo.can_pop() {
                    if self.pixel_to_discard > 0 {
                        self.pixel_fifo.pop();
                        self.sprite_pixel_fifo.pop();
                        self.pixel_to_discard = self.pixel_to_discard - 1;
                        self.pixel_fetcher.step(mmu, &mut self.pixel_fifo, &mut self.sprite_pixel_fifo);
                    } else {
                        match self.get_sprite(sprite_buffer) {
                            Some(sprite) => {
                                self.pixel_fetcher.fetch_sprite(sprite, mmu, &mut self.sprite_pixel_fifo);
                            },
                            None => {
                                let bg = self.pixel_fifo.pop().color();
                                let pixel = match self.sprite_pixel_fifo.pop() {
                                    Some((sprite_px, flag)) => {
                                        if !flag.bg_prior() && sprite_px > 0 || bg == 0 && sprite_px > 0 {
                                            if !flag.palette_1() {
                                                mmu.obp0().get_color(sprite_px)
                                            } else {
                                                mmu.obp1().get_color(sprite_px)
                                            }
                                        } else {
                                            mmu.bgp().get_color(bg)
                                        }
                                    },
                                    None => mmu.bgp().get_color(bg),
                                };
                                let ly = mmu.ly() as usize;
                                if ly < LCD_HEIGHT {
                                    lcd[self.x][ly] = pixel;
                                }
                                self.x = self.x + 1;
                                self.pixel_fetcher.step(mmu, &mut self.pixel_fifo, &mut self.sprite_pixel_fifo);
                                proof {
                                    f2 = self.pixel_fetcher;
                                    q2 = self.pixel_fifo@;
                                    sq2 = self.sprite_pixel_fifo@;
                                }
                            },
                        }
                    }
                } else {
                    self.pixel_fetcher.step(mmu, &mut self.pixel_fifo, &mut self.sprite_pixel_fifo)
                }
            }
        } else {
            self.pixel_fetcher.step(mmu, &mut self.pixel_fifo, &mut self.sprite_pixel_fifo)
        }
        if self.x == LCD_WIDTH {
            self.reset(mmu.ly() == 143);
            proof {
                assert(u == line_started(*old(self), mmu@));
                assert(fetcher_stepped(
                    u.pixel_fetcher,
                    mmu@,
                    u.pixel_fifo@.drop_first(),
                    sprite_popped(u.sprite_pixel_fifo@),
                    f2,
                    q2,
                    sq2,
                ));
            }
            true
        } else {
            false
        }
    }

    /// Takes out of the buffer the first sprite that starts at or before the
    /// next pixel.
    fn get_sprite(&self, sprite_buffer: &mut Vec<Sprite>) -> (r: Option<Sprite>)
        requires
            self.x < LCD_WIDTH,
        ensures
            first_sprite_at(old(sprite_buffer)@, self.x as int) is None ==> r is None && final(sprite_buffer)@ == old(sprite_buffer)@,
            first_sprite_at(old(sprite_buffer)@, self.x as int) matches Some(k) ==> {
                &&& 0 <= k < old(sprite_buffer)@.len()
                &&& r matches Some(s) && s == old(sprite_buffer)@[k]
                &&& final(sprite_buffer)@ == old(sprite_buffer)@.remove(k)
            },
    {
        let ghost start = sprite_buffer@;
        let mut i: usize = 0;
        assert(start.subrange(0, start.len() as int) =~= start);
        while i < sprite_buffer.len()
            invariant
                i <= sprite_buffer@.len(),
                sprite_buffer@ == start,
                start == old(sprite_buffer)@,
                self.x < LCD_WIDTH,
                first_sprite_at(start, self.x as int) == match first_sprite_at(start.subrange(i as int, start.len() as int), self.x as int) {
                    Some(k) => Some(k + i),
                    None => None,
                },
            decreases sprite_buffer.len() - i,
        {
            let s = sprite_buffer[i];
            proof {
                let rest = start.subrange(i as int, start.len() as int);
                assert(rest.drop_first() =~= start.subrange(i + 1, start.len() as int));
                assert(rest[0] == s);
            }
            if s.x() <= self.x as u8 + 8 {
                assert(first_sprite_at(start.subrange(i as int, start.len() as int), self.x as int) == Some(0int));
                assert(first_sprite_at(start, self.x as int) == Some(i as int));
                let removed = sprite_buffer.remove(i);
                return Some(removed);
            }
            i = i + 1;
        }
        proof {
            assert(start.subrange(i as int, start.len() as int).len() == 0);
        }
        None
    }

    /// Ends a line; `all` ends the frame as well.
    pub fn reset(&mut self, all: bool)
        requires
            old(self).pixel_fetcher.wf(),
        ensures
            final(self).wf(),
            final(self).x == 0,
            final(self).is_initial_scanline,
            final(self).pixel_fifo@ == Seq::<PixelType>::empty(),
            final(self).sprite_pixel_fifo@ == Seq::<(u8, Flag)>::empty(),
            all ==> !final(self).window_line,
            !all ==> final(self).window_line == old(self).window_line,
            final(self).pixel_to_discard == old(self).pixel_to_discard,
            final(self).pixel_fetcher == reset_fetcher(old(self).pixel_fetcher, all),
    {
        self.is_initial_scanline = true;
        self.x = 0;
        self.pixel_fifo.reset();
        self.sprite_pixel_fifo.reset();
        if all {
            self.window_line = false;
        }
        self.pixel_fetcher.reset(all);
    }
}

} // verus!
