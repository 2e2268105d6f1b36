use vstd::prelude::*;
use crate::mmu::lcdc::bit;
use crate::mmu::sprite::{Flag, Sprite};
use crate::mmu::{MMU, MmuState};
use crate::ppu::oam_search::sprite_height_of;
use crate::ppu::pixel_type::color_index;
use crate::ppu::sprite_pixel_fifo::{SpritePixelFifo, merged};

verus! {

broadcast use crate::bits::group_bits, crate::ppu::pixel_type::lemma_color_index_bound;

/// Where the sprite fetcher is in fetching a sprite's tile row.
#[derive(Debug, Copy, Clone)]
pub enum Step {
    Idle,
    FetchTileDataLow { sprite: Sprite },
    FetchTileDataHi { sprite: Sprite, tile_data_row_address_low: u16, tile_data_row_low: u8 },
    PushToFifo { sprite: Sprite, tile_data_row_low: u8, tile_data_row_hi: u8 },
}

/// The row of a sprite's tile that scanline `ly` shows, flipped vertically
/// where the sprite says so.
pub open spec fn sprite_row(s: Sprite, ly: u8, height: u8) -> u8 {
    let row = (ly.wrapping_sub(s.y) % height) as u8;
    if (s.flags.0 >> 6u8) & 1 == 1 {
        ((height - 1) - row) as u8
    } else {
        row
    }
}

/// The address of the low byte of that row: 16 bytes per tile from 0x8000;
/// tall sprites start at an even tile.
pub open spec fn sprite_row_address(s: Sprite, ly: u8, lcdc: u8) -> u16 {
    let h = sprite_height_of(lcdc);
    let tile = if h == 8 {
        s.tiledata_index
    } else {
        s.tiledata_index & !1u8
    };
    (0x8000 + tile * 16 + 2 * sprite_row(s, ly, h)) as u16
}

/// A byte of a sprite that starts left of the screen: the hidden columns are
/// shifted out.
pub open spec fn clipped(s: Sprite, v: u8) -> u8 {
    if s.x < 8 {
        if (s.flags.0 >> 5u8) & 1 == 1 {
            v >> ((8 - s.x) % 8) as u8
        } else {
            v << ((8 - s.x) % 8) as u8
        }
    } else {
        v
    }
}

/// The row of sprite pixels pushed into the FIFO, leftmost first.
pub open spec fn sprite_pixels(s: Sprite, lo: u8, hi: u8, lcdc: u8) -> Seq<(u8, Flag)> {
    let row = Seq::new(
        8,
        |k: int|
            if bit(lcdc, 1) {
                (color_index(lo, hi, k), s.flags)
            } else {
                (0u8, s.flags)
            },
    );
    if (s.flags.0 >> 5u8) & 1 == 1 {
        row.reverse()
    } else {
        row
    }
}

/// Fetches the tile row of one sprite: two cycles each for the low byte, the
/// high byte and the push into the sprite FIFO.
pub struct SpritePixelFetcher {
    pub cycle_available: u8,
    pub current_step: Step,
}

impl Default for SpritePixelFetcher {
    fn default() -> (r: Self)
        ensures
            r.cycle_available == 0,
            r.current_step is Idle,
    {
        Self { cycle_available: 0, current_step: Step::Idle }
    }
}

impl SpritePixelFetcher {
    pub open spec fn wf(&self) -> bool {
        &&& self.cycle_available < 2
        &&& self.current_step is Idle ==> self.cycle_available == 0
        &&& self.current_step matches Step::FetchTileDataHi { tile_data_row_address_low, .. }
            ==> 0x8000 <= tile_data_row_address_low < 0x9FFF
    }

    /// Starts fetching `sprite` and takes its first cycle.
    pub fn fetch(&mut self, sprite: Sprite, mmu: &MMU, pixel_fifo: &mut SpritePixelFifo)
        requires
            old(self).wf(),
            old(self).cycle_available == 0,
            old(pixel_fifo).wf(),
            mmu@.wf(),
        ensures
            final(self).wf(),
            final(pixel_fifo).wf(),
            final(self).current_step == (Step::FetchTileDataLow { sprite }),
            final(self).cycle_available == 1,
            final(pixel_fifo)@ == old(pixel_fifo)@,
    {
        self.current_step = Step::FetchTileDataLow { sprite };
        self.step(mmu, pixel_fifo);
    }

    /// Whether a sprite fetch is under way.
    pub fn need_step(&self) -> (r: bool)
        ensures
            r == !(self.current_step is Idle),
    {
        match self.current_step {
            Step::Idle => false,
            _ => true,
        }
    }

    /// One cycle of the fetch, as `step` makes it, from the fetcher `self` and
    /// the sprite FIFO `q` to `next` and `q2`, on the bus `m`.
    pub open spec fn stepped(self, m: MmuState, q: Seq<(u8, Flag)>, next: SpritePixelFetcher, q2: Seq<(u8, Flag)>) -> bool {
        &&& (self.cycle_available == 0 ==> {
                &&& next.cycle_available == 1
                &&& next.current_step == self.current_step
                &&& q2 == q
            })
        &&& (self.cycle_available == 1 ==> next.cycle_available == 0 && match self.current_step {
                Step::FetchTileDataLow { sprite } => {
                    let address = sprite_row_address(sprite, m.ly, m.lcdc);
                    &&& next.current_step == (Step::FetchTileDataHi {
                        sprite,
                        tile_data_row_address_low: address,
                        tile_data_row_low: clipped(sprite, m.read(address as int)),
                    })
                    &&& q2 == q
                },
                Step::FetchTileDataHi { sprite, tile_data_row_address_low, tile_data_row_low } => {
                    &&& next.current_step == (Step::PushToFifo {
                        sprite,
                        tile_data_row_low,
                        tile_data_row_hi: clipped(
                            sprite,
                            m.read(tile_data_row_address_low.wrapping_add(1) as int),
                        ),
                    })
                    &&& q2 == q
                },
                Step::PushToFifo { sprite, tile_data_row_low, tile_data_row_hi } => {
                    &&& next.current_step is Idle
                    &&& q2 == merged(
                        q,
                        sprite_pixels(sprite, tile_data_row_low, tile_data_row_hi, m.lcdc),
                    )
                },
                Step::Idle => false,
            })
    }

    /// One cycle of the fetch. Every second cycle completes a stage: the low
    /// byte of the row, the high byte, then the merge of the row into the
    /// sprite FIFO, after which the fetcher is idle.
    pub fn step(&mut self, mmu: &MMU, pixel_fifo: &mut SpritePixelFifo)
        requires
            old(self).wf(),
            !(old(self).current_step is Idle),
            old(pixel_fifo).wf(),
            mmu@.wf(),
        ensures
            final(self).wf(),
            final(pixel_fifo).wf(),
            old(self).cycle_available == 0 ==> {
                &&& final(self).cycle_available == 1
                &&& final(self).current_step == old(self).current_step
                &&& final(pixel_fifo)@ == old(pixel_fifo)@
            },
            old(self).cycle_available == 1 ==> final(self).cycle_available == 0 && match old(self).current_step {
                Step::FetchTileDataLow { sprite } => {
                    let address = sprite_row_address(sprite, mmu@.ly, mmu@.lcdc);
                    &&& final(self).current_step == (Step::FetchTileDataHi {
                        sprite,
                        tile_data_row_address_low: address,
                        tile_data_row_low: clipped(sprite, mmu@.read(address as int)),
                    })
                    &&& final(pixel_fifo)@ == old(pixel_fifo)@
                },
                Step::FetchTileDataHi { sprite, tile_data_row_address_low, tile_data_row_low } => {
                    &&& final(self).current_step == (Step::PushToFifo {
                        sprite,
                        tile_data_row_low,
                        tile_data_row_hi: clipped(
                            sprite,
                            mmu@.read(tile_data_row_address_low.wrapping_add(1) as int),
                        ),
                    })
                    &&& final(pixel_fifo)@ == old(pixel_fifo)@
                },
                Step::PushToFifo { sprite, tile_data_row_low, tile_data_row_hi } => {
                    &&& final(self).current_step is Idle
                    &&& final(pixel_fifo)@ == merged(
                        old(pixel_fifo)@,
                        sprite_pixels(sprite, tile_data_row_low, tile_data_row_hi, mmu@.lcdc),
                    )
                },
                Step::Idle => false,
            },
            old(self).stepped(mmu@, old(pixel_fifo)@, *final(self), final(pixel_fifo)@),
    {
        self.cycle_available = self.cycle_available + 1;
        match self.current_step {
            Step::Idle => {},
            Step::FetchTileDataLow { sprite } => self.fetch_tile_data_low(sprite, mmu),
            Step::FetchTileDataHi { sprite, tile_data_row_address_low, tile_data_row_low } => self.fetch_tile_data_hi(sprite, tile_data_row_address_low, tile_data_row_low, mmu),
            Step::PushToFifo { sprite, tile_data_row_low, tile_data_row_hi } => self.push_to_fifo(sprite, tile_data_row_low, tile_data_row_hi, pixel_fifo, mmu),
        }
    }

    fn clip(sprite: Sprite, v: u8) -> (r: u8)
        ensures
            r == clipped(sprite, v),
    {
        if sprite.x() < 8 {
            if sprite.flags().is_x_flipped() {
                v >> ((8 - sprite.x()) % 8)
            } else {
                v << ((8 - sprite.x()) % 8)
            }
        } else {
            v
        }
    }

    fn fetch_tile_data_low(&mut self, sprite: Sprite, mmu: &MMU)
        requires
            old(self).cycle_available <= 2,
            mmu@.wf(),
        ensures
            old(self).cycle_available < 2 ==> *final(self) == *old(self),
            old(self).cycle_available == 2 ==> {
                let address = sprite_row_address(sprite, mmu@.ly, mmu@.lcdc);
                &&& 0x8000 <= address < 0x9FFF
                &&& final(self).cycle_available == 0
                &&& final(self).current_step == (Step::FetchTileDataHi {
                    sprite,
                    tile_data_row_address_low: address,
                    tile_data_row_low: clipped(sprite, mmu@.read(address as int)),
                })
            },
    {
        if self.cycle_available < 2 {
            return ;
        }
        self.cycle_available = self.cycle_available - 2;
        let ly = mmu.ly();
        let sprite_height = mmu.lcdc().sprite_height();
        let row = ly.wrapping_sub(sprite.y()) % sprite_height;
        let tile_row_offset = 2 * if sprite.flags().is_y_flipped() {
            (sprite_height - 1) - row
        } else {
            row
        };
        let tile = if sprite_height == 8 {
            sprite.tiledata_index()
        } else {
            sprite.tiledata_index() & !1u8
        };
        let tile_data_row_address_low = 0x8000 + tile as u16 * 16 + tile_row_offset as u16;
        let tile_data_row_low = Self::clip(sprite, mmu.get(tile_data_row_address_low));
        self.current_step = Step::FetchTileDataHi { sprite, tile_data_row_address_low, tile_data_row_low };
    }

    fn fetch_tile_data_hi(&mut self, sprite: Sprite, tile_data_row_address_low: u16, tile_data_row_low: u8, mmu: &MMU)
        requires
            old(self).cycle_available <= 2,
            0x8000 <= tile_data_row_address_low < 0x9FFF,
            mmu@.wf(),
        ensures
            old(self).cycle_available < 2 ==> *final(self) == *old(self),
            old(self).cycle_available == 2 ==> {
                &&& final(self).cycle_available == 0
                &&& final(self).current_step == (Step::PushToFifo {
                    sprite,
                    tile_data_row_low,
                    tile_data_row_hi: clipped(
                        sprite,
                        mmu@.read(tile_data_row_address_low.wrapping_add(1) as int),
                    ),
                })
            },
    {
        if self.cycle_available < 2 {
            return ;
        }
        self.cycle_available = self.cycle_available - 2;
        let tile_data_row_hi = Self::clip(sprite, mmu.get(tile_data_row_address_low.wrapping_add(1)));
        self.current_step = Step::PushToFifo { sprite, tile_data_row_low, tile_data_row_hi };
    }

    fn push_to_fifo(&mut self, sprite: Sprite, tile_data_row_low: u8, tile_data_row_hi: u8, pixel_fifo: &mut SpritePixelFifo, mmu: &MMU)
        requires
            old(self).cycle_available <= 2,
            old(pixel_fifo).wf(),
        ensures
            final(pixel_fifo).wf(),
            old(self).cycle_available < 2 ==> *final(self) == *old(self) && final(pixel_fifo)@ == old(pixel_fifo)@,
            old(self).cycle_available == 2 ==> {
                &&& final(self).cycle_available == 0
                &&& final(self).current_step is Idle
                &&& final(pixel_fifo)@ == merged(
                    old(pixel_fifo)@,
                    sprite_pixels(sprite, tile_data_row_low, tile_data_row_hi, mmu@.lcdc),
                )
            },
    {
        if self.cycle_available < 2 {
            return ;
        }
        self.cycle_available = self.cycle_available - 2;
        let flags = *sprite.flags();
        let mut sprite_tile_pixels = if mmu.lcdc().is_sprite_enable() {
            Self::pixels_from_sprite_tile_data(tile_data_row_low, tile_data_row_hi, flags)
        } else {
            [(0, flags); 8]
        };
        if flags.is_x_flipped() {
            sprite_tile_pixels = Self::reversed(sprite_tile_pixels);
        }
        assert(sprite_tile_pixels@ =~= sprite_pixels(sprite, tile_data_row_low, tile_data_row_hi, mmu@.lcdc));
        pixel_fifo.push_tile_pixel_row(sprite_tile_pixels);
        self.current_step = Step::Idle;
    }

    fn reversed(row: [(u8, Flag); 8]) -> (r: [(u8, Flag); 8])
        ensures
            r@ == row@.reverse(),
    {
        let r = [row[7], row[6], row[5], row[4], row[3], row[2], row[1], row[0]];
        assert(r@ =~= row@.reverse());
        r
    }

    #[verifier::rlimit(50)]
    fn pixels_from_sprite_tile_data(lo: u8, hi: u8, flag: Flag) -> (r: [(u8, Flag); 8])
        ensures
            forall|k: int| 0 <= k < 8 ==> r@[k] == (color_index(lo, hi, k), flag),
    {
        [
            (((lo >> 7u8) & 1) | (((hi >> 7u8) & 1) << 1u8), flag),
            (((lo >> 6u8) & 1) | (((hi >> 6u8) & 1) << 1u8), flag),
            (((lo >> 5u8) & 1) | (((hi >> 5u8) & 1) << 1u8), flag),
            (((lo >> 4u8) & 1) | (((hi >> 4u8) & 1) << 1u8), flag),
            (((lo >> 3u8) & 1) | (((hi >> 3u8) & 1) << 1u8), flag),
            (((lo >> 2u8) & 1) | (((hi >> 2u8) & 1) << 1u8), flag),
            (((lo >> 1u8) & 1) | (((hi >> 1u8) & 1) << 1u8), flag),
            (((lo >> 0u8) & 1) | (((hi >> 0u8) & 1) << 1u8), flag),
        ]
    }

    /// Checks nothing is half counted: a reset comes between fetches.
    pub fn reset(&mut self, is_vblank: bool)
        requires
            old(self).cycle_available == 0,
        ensures
            *final(self) == *old(self),
    {
    }
}

} // verus!
