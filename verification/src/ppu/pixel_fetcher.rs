use vstd::prelude::*;
use crate::mmu::lcdc::{TileDataArea, TileMapArea, bit};
use crate::mmu::sprite::{Flag, Sprite};
use crate::mmu::{MMU, MmuState};
use crate::ppu::pixel_fifo::{PixelFifo, indices_in_range};
use crate::ppu::pixel_type::{PixelType, color_index};
use crate::ppu::sprite_pixel_fetcher::SpritePixelFetcher;
use crate::ppu::sprite_pixel_fifo::SpritePixelFifo;

verus! {

broadcast use crate::bits::group_bits, crate::ppu::pixel_type::lemma_color_index_bound;

/// Where the background fetcher is in fetching a tile row.
#[derive(Debug, Copy, Clone)]
pub enum Step {
    WaitFifo { tile_pixel_row: [PixelType; 8] },
    FetchTileDataIndex,
    FetchTileDataLow { tile_data_index: u8 },
    FetchTileDataHi { tile_data_row_address_low: u16, tile_data_row_low: u8 },
    PushToFifo { tile_data_row_low: u8, tile_data_row_hi: u8 },
}

/// A row of pixels whose colour indices are all below 4.
pub open spec fn row_in_range(row: [PixelType; 8]) -> bool {
    indices_in_range(row@)
}

/// The tile map that the background (`window` false) or the window reads.
pub open spec fn map_area(window: bool, lcdc: u8) -> TileMapArea {
    if (window && bit(lcdc, 6)) || (!window && bit(lcdc, 3)) {
        TileMapArea::U9C00
    } else {
        TileMapArea::U9800
    }
}

/// The tile map entry of the fetcher's next tile: its column counter (plus
/// SCX / 8, wrapping at 32, for the background) and the tile line of the
/// window line counter, or of LY + SCY, 32 entries a tile line.
pub open spec fn tile_map_address(f: PixelFetcher, m: MmuState) -> u16 {
    let x_offset: u16 = if f.is_window_mode {
        f.x_position_counter as u16
    } else {
        ((f.x_position_counter + m.scx / 8) as u16) & 0x1F
    };
    let y_offset: u16 = if f.is_window_mode {
        (32 * (f.window_line_counter / 8)) as u16
    } else {
        (32 * ((((m.ly + m.scy) as u16) & 0xFF) / 8)) as u16
    };
    (map_area(f.is_window_mode, m.lcdc).base() + (((x_offset + y_offset) as u16) & 0x3FF)) as u16
}

/// The address of the low byte of the fetched row of tile `index`: its
/// tile in the tile data area that LCDC selects, two bytes a row, the row
/// being the window line counter, or LY + SCY, modulo 8.
pub open spec fn tile_row_address(f: PixelFetcher, m: MmuState, index: u8) -> u16 {
    let area = if bit(m.lcdc, 4) {
        TileDataArea::U8000
    } else {
        TileDataArea::I8800
    };
    let row_offset: u16 = if f.is_window_mode {
        (2 * (f.window_line_counter % 8)) as u16
    } else {
        (2 * ((m.ly + m.scy) % 8)) as u16
    };
    (area.tile_address(index as u16) as u16).wrapping_add(row_offset)
}

/// The eight pixels of a tile row from its two bytes: background or window
/// pixels with their colour numbers, or colour 0 while LCDC bit 0 turns the
/// background and window off.
pub open spec fn tile_row(window: bool, lcdc: u8, lo: u8, hi: u8) -> Seq<PixelType> {
    Seq::new(
        8,
        |k: int|
            {
                let c = if bit(lcdc, 0) {
                    color_index(lo, hi, k)
                } else {
                    0
                };
                if window {
                    PixelType::Window(c)
                } else {
                    PixelType::Background(c)
                }
            },
    )
}

/// One stage of the tile fetch, from fetcher `f` (whose cycle for this step
/// is already counted) and FIFO `fifo` to `f2` and `fifo2`. A stage waits for
/// its two cycles, then reads the tile number, the row's low byte, its high
/// byte, or queues the row behind the FIFO's pixels when at most 8 are queued
/// and holds it otherwise; a held row goes in front of the FIFO once it has
/// room. A queued row moves the column counter on.
pub open spec fn bg_staged(f: PixelFetcher, m: MmuState, fifo: Seq<PixelType>, f2: PixelFetcher, fifo2: Seq<PixelType>) -> bool {
    match f.current_step {
        Step::WaitFifo { tile_pixel_row } => if fifo.len() <= 8 {
            &&& fifo2 == tile_pixel_row@ + fifo
            &&& f2 == (PixelFetcher {
                cycle_available: (f.cycle_available - 1) as u8,
                x_position_counter: f.x_position_counter.wrapping_add(1),
                current_step: Step::FetchTileDataIndex,
                ..f
            })
        } else {
            &&& fifo2 == fifo
            &&& f2 == (PixelFetcher { cycle_available: (f.cycle_available - 1) as u8, ..f })
        },
        _ => if f.cycle_available < 2 {
            f2 == f && fifo2 == fifo
        } else {
            let g = PixelFetcher { cycle_available: (f.cycle_available - 2) as u8, ..f };
            match f.current_step {
                Step::FetchTileDataIndex => {
                    &&& fifo2 == fifo
                    &&& f2 == (PixelFetcher {
                        current_step: Step::FetchTileDataLow { tile_data_index: m.read(tile_map_address(f, m) as int) },
                        ..g
                    })
                },
                Step::FetchTileDataLow { tile_data_index } => {
                    let a = tile_row_address(f, m, tile_data_index);
                    &&& fifo2 == fifo
                    &&& f2 == (PixelFetcher {
                        current_step: Step::FetchTileDataHi { tile_data_row_address_low: a, tile_data_row_low: m.read(a as int) },
                        ..g
                    })
                },
                Step::FetchTileDataHi { tile_data_row_address_low, tile_data_row_low } => {
                    &&& fifo2 == fifo
                    &&& f2 == (PixelFetcher {
                        current_step: Step::PushToFifo {
                            tile_data_row_low,
                            tile_data_row_hi: m.read(tile_data_row_address_low.wrapping_add(1) as int),
                        },
                        ..g
                    })
                },
                Step::PushToFifo { tile_data_row_low, tile_data_row_hi } => {
                    let row = tile_row(f.is_window_mode, m.lcdc, tile_data_row_low, tile_data_row_hi);
                    if fifo.len() <= 8 {
                        &&& fifo2 == fifo + row
                        &&& f2 == (PixelFetcher {
                            x_position_counter: f.x_position_counter.wrapping_add(1),
                            current_step: Step::FetchTileDataIndex,
                            ..g
                        })
                    } else {
                        &&& fifo2 == fifo
                        &&& f2.current_step matches Step::WaitFifo { tile_pixel_row } && tile_pixel_row@ == row
                        &&& f2 == (PixelFetcher { current_step: f2.current_step, ..g })
                    }
                },
                _ => true,
            }
        },
    }
}

/// The fetcher after the end of a line, as `reset` leaves it: back to the
/// background, at the first tile, with no cycle banked; the window line
/// counter moves on after a window line and restarts at VBlank.
pub open spec fn reset_fetcher(f: PixelFetcher, is_vblank: bool) -> PixelFetcher {
    PixelFetcher {
        current_step: Step::FetchTileDataIndex,
        cycle_available: 0,
        is_window_mode: false,
        x_position_counter: 0,
        window_line_counter: if is_vblank {
            0
        } else if f.is_window_mode {
            f.window_line_counter.wrapping_add(1)
        } else {
            f.window_line_counter
        },
        ..f
    }
}

/// One cycle of fetching, as `step` makes it, from the fetcher `f`, the pixel
/// FIFO `q` and the sprite FIFO `sq` to `f2`, `q2` and `sq2`, on the bus `m`:
/// while a sprite is fetched, only the sprite fetcher and the sprite FIFO
/// move; otherwise the tile fetch takes the cycle (`bg_staged`).
pub open spec fn fetcher_stepped(
    f: PixelFetcher,
    m: MmuState,
    q: Seq<PixelType>,
    sq: Seq<(u8, Flag)>,
    f2: PixelFetcher,
    q2: Seq<PixelType>,
    sq2: Seq<(u8, Flag)>,
) -> bool {
    if !(f.sprite_pixel_fetcher.current_step is Idle) {
        &&& q2 == q
        &&& f2 == (PixelFetcher { sprite_pixel_fetcher: f2.sprite_pixel_fetcher, ..f })
        &&& f.sprite_pixel_fetcher.stepped(m, sq, f2.sprite_pixel_fetcher, sq2)
    } else {
        &&& sq2 == sq
        &&& bg_staged(PixelFetcher { cycle_available: (f.cycle_available + 1) as u8, ..f }, m, q, f2, q2)
    }
}

/// Fetches background and window tile rows into the pixel FIFO, two cycles
/// per stage, and hands cycles to the sprite fetcher while it works.
pub struct PixelFetcher {
    pub sprite_pixel_fetcher: SpritePixelFetcher,
    pub cycle_available: u8,
    pub current_step: Step,
    pub is_window_mode: bool,
    pub x_position_counter: u8,
    pub window_line_counter: u8,
}

impl Default for PixelFetcher {
    fn default() -> (r: Self)
        ensures
            r.wf(),
            r.cycle_available == 0,
            r.current_step is FetchTileDataIndex,
            !r.is_window_mode,
            r.x_position_counter == 0 && r.window_line_counter == 0,
    {
        Self {
            sprite_pixel_fetcher: SpritePixelFetcher::default(),
            cycle_available: 0,
            current_step: Step::FetchTileDataIndex,
            is_window_mode: false,
            x_position_counter: 0,
            window_line_counter: 0,
        }
    }
}

impl PixelFetcher {
    pub open spec fn wf(&self) -> bool {
        &&& self.sprite_pixel_fetcher.wf()
        &&& self.cycle_available < 2
        &&& self.current_step matches Step::FetchTileDataHi { tile_data_row_address_low, .. }
            ==> 0x8000 <= tile_data_row_address_low < 0x9FFF
        &&& self.current_step matches Step::WaitFifo { tile_pixel_row } ==> {
            &&& self.cycle_available == 0
            &&& row_in_range(tile_pixel_row)
        }
    }

    /// Whether a sprite fetch is under way.
    pub fn fetching_sprite(&self) -> (r: bool)
        ensures
            r == !(self.sprite_pixel_fetcher.current_step is Idle),
    {
        self.sprite_pixel_fetcher.need_step()
    }

    /// Starts fetching the row of `sprite` into the sprite FIFO.
    pub fn fetch_sprite(&mut self, sprite: Sprite, mmu: &MMU, sprite_pixel_fifo: &mut SpritePixelFifo)
        requires
            old(self).wf(),
            old(self).sprite_pixel_fetcher.current_step is Idle,
            old(sprite_pixel_fifo).wf(),
            mmu@.wf(),
        ensures
            final(self).wf(),
            final(sprite_pixel_fifo).wf(),
            final(self).sprite_pixel_fetcher.current_step == (crate::ppu::sprite_pixel_fetcher::Step::FetchTileDataLow { sprite }),
            *final(self) == (PixelFetcher {
                sprite_pixel_fetcher: SpritePixelFetcher {
                    cycle_available: 1,
                    current_step: crate::ppu::sprite_pixel_fetcher::Step::FetchTileDataLow { sprite },
                },
                ..*old(self)
            }),
            final(sprite_pixel_fifo)@ == old(sprite_pixel_fifo)@,
    {
        self.sprite_pixel_fetcher.fetch(sprite, mmu, sprite_pixel_fifo);
    }

    /// Switches to the window: the fetch starts over from the window's first
    /// tile, and its first cycle runs.
    pub fn fetch_window(&mut self, mmu: &MMU, pixel_fifo: &mut PixelFifo, sprite_pixel_fifo: &mut SpritePixelFifo)
        requires
            old(self).wf(),
            old(self).sprite_pixel_fetcher.current_step is Idle,
            old(pixel_fifo).wf(),
            old(sprite_pixel_fifo).wf(),
            mmu@.wf(),
        ensures
            final(self).wf(),
            final(pixel_fifo).wf(),
            final(sprite_pixel_fifo).wf(),
            *final(self) == (PixelFetcher {
                is_window_mode: true,
                x_position_counter: 0,
                current_step: Step::FetchTileDataIndex,
                cycle_available: 1,
                ..*old(self)
            }),
            final(pixel_fifo)@ == old(pixel_fifo)@,
            final(sprite_pixel_fifo)@ == old(sprite_pixel_fifo)@,
    {
        self.x_position_counter = 0;
        self.is_window_mode = true;
        self.current_step = Step::FetchTileDataIndex;
        self.cycle_available = 0;
        self.step(mmu, pixel_fifo, sprite_pixel_fifo);
    }

    /// One cycle of fetching: the sprite fetcher's while it works, else the
    /// next stage of the tile row once it has its two cycles.
    pub fn step(&mut self, mmu: &MMU, pixel_fifo: &mut PixelFifo, sprite_pixel_fifo: &mut SpritePixelFifo)
        requires
            old(self).wf(),
            old(pixel_fifo).wf(),
            old(sprite_pixel_fifo).wf(),
            mmu@.wf(),
        ensures
            final(self).wf(),
            final(pixel_fifo).wf(),
            final(sprite_pixel_fifo).wf(),
            final(self).is_window_mode == old(self).is_window_mode,
            final(self).window_line_counter == old(self).window_line_counter,
            !(old(self).sprite_pixel_fetcher.current_step is Idle) ==> {
                &&& final(pixel_fifo)@ == old(pixel_fifo)@
                &&& *final(self) == (PixelFetcher { sprite_pixel_fetcher: final(self).sprite_pixel_fetcher, ..*old(self) })
            },
            old(self).sprite_pixel_fetcher.current_step is Idle ==> {
                &&& final(sprite_pixel_fifo)@ == old(sprite_pixel_fifo)@
                &&& final(self).sprite_pixel_fetcher == old(self).sprite_pixel_fetcher
            },
            old(self).sprite_pixel_fetcher.current_step is Idle && old(self).cycle_available == 0
                && !(old(self).current_step is WaitFifo) ==> {
                &&& *final(self) == (PixelFetcher { cycle_available: 1, ..*old(self) })
                &&& final(pixel_fifo)@ == old(pixel_fifo)@
            },
            fetcher_stepped(
                *old(self),
                mmu@,
                old(pixel_fifo)@,
                old(sprite_pixel_fifo)@,
                *final(self),
                final(pixel_fifo)@,
                final(sprite_pixel_fifo)@,
            ),
            old(self).sprite_pixel_fetcher.current_step is Idle ==> bg_staged(
                PixelFetcher { cycle_available: (old(self).cycle_available + 1) as u8, ..*old(self) },
                mmu@,
                old(pixel_fifo)@,
                *final(self),
                final(pixel_fifo)@,
            ),
    {
        if self.sprite_pixel_fetcher.need_step() {
            self.sprite_pixel_fetcher.step(mmu, sprite_pixel_fifo);
        } else {
            self.cycle_available = self.cycle_available + 1;
            match self.current_step {
                Step::FetchTileDataIndex => self.fetch_tile_data_index(mmu),
                Step::FetchTileDataLow { tile_data_index } => self.fetch_tile_data_low(tile_data_index, mmu),
                Step::FetchTileDataHi { tile_data_row_address_low, tile_data_row_low } => self.fetch_tile_data_hi(tile_data_row_address_low, tile_data_row_low, mmu),
                Step::PushToFifo { tile_data_row_low, tile_data_row_hi } => self.push_to_fifo(tile_data_row_low, tile_data_row_hi, mmu, pixel_fifo),
                Step::WaitFifo { tile_pixel_row } => self.wait_fifo(tile_pixel_row, pixel_fifo),
            }
        }
    }

    /// Reads the tile number from the background or window tile map.
    fn fetch_tile_data_index(&mut self, mmu: &MMU)
        requires
            old(self).cycle_available <= 2,
            old(self).current_step is FetchTileDataIndex,
            old(self).sprite_pixel_fetcher.wf(),
            mmu@.wf(),
        ensures
            old(self).cycle_available < 2 ==> *final(self) == *old(self),
            final(self).sprite_pixel_fetcher == old(self).sprite_pixel_fetcher,
            final(self).is_window_mode == old(self).is_window_mode,
            final(self).window_line_counter == old(self).window_line_counter,
            final(self).cycle_available < 2,
            final(self).current_step is FetchTileDataIndex || final(self).current_step is FetchTileDataLow,
            old(self).cycle_available == 2 ==> *final(self) == (PixelFetcher {
                cycle_available: 0,
                current_step: Step::FetchTileDataLow {
                    tile_data_index: mmu@.read(tile_map_address(*old(self), mmu@) as int),
                },
                ..*old(self)
            }),
    {
        if self.cycle_available < 2 {
            return ;
        }
        self.cycle_available = self.cycle_available - 2;
        let lcdc = mmu.lcdc();
        let tile_map_area = if self.is_window_mode {
            lcdc.window_tilemap_area()
        } else {
            lcdc.bg_tilemap_area()
        };
        let ly = mmu.ly();
        let scx = mmu.scx();
        let scy = mmu.scy();
        let x_offset: u16 = if self.is_window_mode {
            self.x_position_counter as u16
        } else {
            (self.x_position_counter as u16 + (scx as u16 / 8)) & 0x1F
        };
        let y_offset: u16 = if self.is_window_mode {
            32 * (self.window_line_counter as u16 / 8)
        } else {
            32 * (((ly as u16 + scy as u16) & 0xFF) / 8)
        };
        let offset = (x_offset + y_offset) & 0x3FF;
        let tile_data_address = tile_map_area.address(offset);
        let tile_data_index = mmu.get(tile_data_address);
        self.current_step = Step::FetchTileDataLow { tile_data_index };
    }

    /// Reads the low byte of the tile row.
    fn fetch_tile_data_low(&mut self, tile_data_index: u8, mmu: &MMU)
        requires
            old(self).cycle_available <= 2,
            old(self).current_step is FetchTileDataLow,
            mmu@.wf(),
        ensures
            old(self).cycle_available < 2 ==> *final(self) == *old(self),
            final(self).sprite_pixel_fetcher == old(self).sprite_pixel_fetcher,
            final(self).is_window_mode == old(self).is_window_mode,
            final(self).window_line_counter == old(self).window_line_counter,
            final(self).cycle_available < 2,
            final(self).current_step is FetchTileDataLow || final(self).current_step is FetchTileDataHi,
            old(self).cycle_available == 2 ==> 0x8000 <= tile_row_address(*old(self), mmu@, tile_data_index) < 0x9FFF,
            old(self).cycle_available == 2 ==> *final(self) == (PixelFetcher {
                cycle_available: 0,
                current_step: Step::FetchTileDataHi {
                    tile_data_row_address_low: tile_row_address(*old(self), mmu@, tile_data_index),
                    tile_data_row_low: mmu@.read(tile_row_address(*old(self), mmu@, tile_data_index) as int),
                },
                ..*old(self)
            }),
    {
        if self.cycle_available < 2 {
            return ;
        }
        self.cycle_available = self.cycle_available - 2;
        let lcdc = mmu.lcdc();
        let ly = mmu.ly();
        let scy = mmu.scy();
        let tile_data_area = lcdc.bg_window_tiledata_area();
        let tile_data_address = tile_data_area.address(tile_data_index as u16);
        let tile_row_offset: u16 = if self.is_window_mode {
            2 * (self.window_line_counter as u16 % 8)
        } else {
            2 * ((ly as u16 + scy as u16) % 8)
        };
        let tile_data_row_address_low = tile_data_address.wrapping_add(tile_row_offset);
        let tile_data_row_low = mmu.get(tile_data_row_address_low);
        self.current_step = Step::FetchTileDataHi { tile_data_row_address_low, tile_data_row_low };
    }

    /// Reads the high byte of the tile row.
    fn fetch_tile_data_hi(&mut self, tile_data_row_address_low: u16, tile_data_row_low: u8, mmu: &MMU)
        requires
            old(self).cycle_available <= 2,
            0x8000 <= tile_data_row_address_low < 0x9FFF,
            old(self).current_step is FetchTileDataHi,
            mmu@.wf(),
        ensures
            old(self).cycle_available < 2 ==> *final(self) == *old(self),
            final(self).sprite_pixel_fetcher == old(self).sprite_pixel_fetcher,
            final(self).is_window_mode == old(self).is_window_mode,
            final(self).window_line_counter == old(self).window_line_counter,
            final(self).cycle_available < 2,
            final(self).current_step is FetchTileDataHi || final(self).current_step is PushToFifo,
            old(self).cycle_available == 2 ==> *final(self) == (PixelFetcher {
                cycle_available: 0,
                current_step: Step::PushToFifo {
                    tile_data_row_low,
                    tile_data_row_hi: mmu@.read(tile_data_row_address_low.wrapping_add(1) as int),
                },
                ..*old(self)
            }),
    {
        if self.cycle_available < 2 {
            return ;
        }
        self.cycle_available = self.cycle_available - 2;
        let tile_data_row_hi = mmu.get(tile_data_row_address_low.wrapping_add(1));
        self.current_step = Step::PushToFifo { tile_data_row_low, tile_data_row_hi };
    }

    /// Decodes the row and queues it, or waits for room in the FIFO. With the
    /// background off the row is colour 0.
    fn push_to_fifo(&mut self, tile_data_row_low: u8, tile_data_row_hi: u8, mmu: &MMU, pixel_fifo: &mut PixelFifo)
        requires
            old(self).cycle_available <= 2,
            old(self).current_step is PushToFifo,
            old(pixel_fifo).wf(),
        ensures
            old(self).cycle_available < 2 ==> *final(self) == *old(self) && final(pixel_fifo)@ == old(pixel_fifo)@,
            final(pixel_fifo).wf(),
            final(self).sprite_pixel_fetcher == old(self).sprite_pixel_fetcher,
            final(self).is_window_mode == old(self).is_window_mode,
            final(self).window_line_counter == old(self).window_line_counter,
            final(self).cycle_available < 2,
            final(self).current_step matches Step::WaitFifo { tile_pixel_row } ==> final(self).cycle_available == 0 && row_in_range(tile_pixel_row),
            old(self).cycle_available == 2 ==> {
                let row = tile_row(old(self).is_window_mode, mmu@.lcdc, tile_data_row_low, tile_data_row_hi);
                let g = PixelFetcher { cycle_available: 0, ..*old(self) };
                if old(pixel_fifo)@.len() <= 8 {
                    &&& final(pixel_fifo)@ == old(pixel_fifo)@ + row
                    &&& *final(self) == (PixelFetcher {
                        x_position_counter: old(self).x_position_counter.wrapping_add(1),
                        current_step: Step::FetchTileDataIndex,
                        ..g
                    })
                } else {
                    &&& final(pixel_fifo)@ == old(pixel_fifo)@
                    &&& final(self).current_step matches Step::WaitFifo { tile_pixel_row } && tile_pixel_row@ == row
                    &&& *final(self) == (PixelFetcher { current_step: final(self).current_step, ..g })
                }
            },
    {
        if self.cycle_available < 2 {
            return ;
        }
        self.cycle_available = self.cycle_available - 2;
        let tile_pixel_row = if mmu.lcdc().is_bg_window_enable() {
            if self.is_window_mode {
                PixelType::from_window_tile_data(tile_data_row_low, tile_data_row_hi)
            } else {
                PixelType::from_bg_tile_data(tile_data_row_low, tile_data_row_hi)
            }
        } else {
            if self.is_window_mode {
                [PixelType::Window(0); 8]
            } else {
                [PixelType::Background(0); 8]
            }
        };
        assert(row_in_range(tile_pixel_row));
        assert(tile_pixel_row@ =~= tile_row(self.is_window_mode, mmu@.lcdc, tile_data_row_low, tile_data_row_hi));
        if pixel_fifo.can_push() {
            pixel_fifo.push_tile_pixel_row(tile_pixel_row);
            self.x_position_counter = self.x_position_counter.wrapping_add(1);
            self.current_step = Step::FetchTileDataIndex;
        } else {
            self.current_step = Step::WaitFifo { tile_pixel_row };
        }
    }

    /// Queues the waiting row in front of the FIFO once it has room.
    fn wait_fifo(&mut self, tile_pixel_row: [PixelType; 8], pixel_fifo: &mut PixelFifo)
        requires
            old(self).cycle_available == 1,
            row_in_range(tile_pixel_row),
            old(self).current_step == (Step::WaitFifo { tile_pixel_row }),
            old(pixel_fifo).wf(),
        ensures
            final(pixel_fifo).wf(),
            final(self).sprite_pixel_fetcher == old(self).sprite_pixel_fetcher,
            final(self).is_window_mode == old(self).is_window_mode,
            final(self).window_line_counter == old(self).window_line_counter,
            final(self).cycle_available == 0,
            final(self).current_step is FetchTileDataIndex || final(self).current_step == old(self).current_step,
            old(pixel_fifo)@.len() <= 8 ==> {
                &&& final(pixel_fifo)@ == tile_pixel_row@ + old(pixel_fifo)@
                &&& *final(self) == (PixelFetcher {
                    cycle_available: 0,
                    x_position_counter: old(self).x_position_counter.wrapping_add(1),
                    current_step: Step::FetchTileDataIndex,
                    ..*old(self)
                })
            },
            old(pixel_fifo)@.len() > 8 ==> {
                &&& final(pixel_fifo)@ == old(pixel_fifo)@
                &&& *final(self) == (PixelFetcher { cycle_available: 0, ..*old(self) })
            },
    {
        self.cycle_available = self.cycle_available - 1;
        if pixel_fifo.can_push() {
            pixel_fifo.push_tile_pixel_row_front(tile_pixel_row);
            self.x_position_counter = self.x_position_counter.wrapping_add(1);
            self.current_step = Step::FetchTileDataIndex;
        }
    }

    /// Ends a scanline: the fetch starts over on the background; the window
    /// line counter moves on after a window line and restarts at VBlank.
    pub fn reset(&mut self, is_vblank: bool)
        requires
            old(self).wf(),
        ensures
            final(self).wf(),
            final(self).current_step is FetchTileDataIndex,
            final(self).cycle_available == 0,
            !final(self).is_window_mode,
            final(self).x_position_counter == 0,
            final(self).window_line_counter == if is_vblank {
                0
            } else if old(self).is_window_mode {
                old(self).window_line_counter.wrapping_add(1)
            } else {
                old(self).window_line_counter
            },
            final(self).sprite_pixel_fetcher == old(self).sprite_pixel_fetcher,
            *final(self) == reset_fetcher(*old(self), is_vblank),
    {
        self.current_step = Step::FetchTileDataIndex;
        self.cycle_available = 0;
        if self.is_window_mode {
            self.window_line_counter = self.window_line_counter.wrapping_add(1);
        }
        self.is_window_mode = false;
        self.x_position_counter = 0;
        if is_vblank {
            self.window_line_counter = 0;
        }
    }

    pub fn is_window_mode(&self) -> (r: bool)
        ensures
            r == self.is_window_mode,
    {
        self.is_window_mode
    }
}

} // verus!
