use vstd::prelude::*;

verus! {

/// The colour index of pixel `k` (0 is the leftmost) of a tile row: bit
/// `7 - k` of the low byte, and of the high byte as the upper bit.
pub open spec fn color_index(lo: u8, hi: u8, k: int) -> u8 {
    ((lo >> ((7 - k) as u8)) & 1) | (((hi >> ((7 - k) as u8)) & 1) << 1u8)
}

/// A colour index is below 4.
pub broadcast proof fn lemma_color_index_bound(lo: u8, hi: u8, s: u8)
    ensures
        #[trigger] (((lo >> s) & 1) | (((hi >> s) & 1) << 1u8)) < 4,
{
    assert(((lo >> s) & 1) | (((hi >> s) & 1) << 1u8) < 4) by (bit_vector);
}

/// A pixel in the background FIFO, with where it came from.
#[derive(Debug, Copy, Clone, PartialEq, Eq, Structural)]
pub enum PixelType {
    Background(u8),
    Window(u8),
    Sprite { pixels: u8, palette_1: bool },
}

impl PixelType {
    /// The colour index that the pixel holds.
    pub open spec fn index(self) -> u8 {
        match self {
            PixelType::Background(i) => i,
            PixelType::Window(i) => i,
            PixelType::Sprite { pixels, .. } => pixels,
        }
    }

    pub fn color(&self) -> (r: u8)
        ensures
            r == self.index(),
    {
        match self {
            PixelType::Background(i) => *i,
            PixelType::Window(i) => *i,
            PixelType::Sprite { pixels, .. } => *pixels,
        }
    }

    /// The eight background pixels of a tile row, leftmost first.
    pub fn from_bg_tile_data(lo: u8, hi: u8) -> (r: [Self; 8])
        ensures
            forall|k: int| 0 <= k < 8 ==> r@[k] == PixelType::Background(color_index(lo, hi, k)),
    {
        [
            PixelType::Background(((lo >> 7u8) & 1) | (((hi >> 7u8) & 1) << 1u8)),
            PixelType::Background(((lo >> 6u8) & 1) | (((hi >> 6u8) & 1) << 1u8)),
            PixelType::Background(((lo >> 5u8) & 1) | (((hi >> 5u8) & 1) << 1u8)),
            PixelType::Background(((lo >> 4u8) & 1) | (((hi >> 4u8) & 1) << 1u8)),
            PixelType::Background(((lo >> 3u8) & 1) | (((hi >> 3u8) & 1) << 1u8)),
            PixelType::Background(((lo >> 2u8) & 1) | (((hi >> 2u8) & 1) << 1u8)),
            PixelType::Background(((lo >> 1u8) & 1) | (((hi >> 1u8) & 1) << 1u8)),
            PixelType::Background(((lo >> 0u8) & 1) | (((hi >> 0u8) & 1) << 1u8)),
        ]
    }

    /// The eight window pixels of a tile row, leftmost first.
    pub fn from_window_tile_data(lo: u8, hi: u8) -> (r: [Self; 8])
        ensures
            forall|k: int| 0 <= k < 8 ==> r@[k] == PixelType::Window(color_index(lo, hi, k)),
    {
        [
            PixelType::Window(((lo >> 7u8) & 1) | (((hi >> 7u8) & 1) << 1u8)),
            PixelType::Window(((lo >> 6u8) & 1) | (((hi >> 6u8) & 1) << 1u8)),
            PixelType::Window(((lo >> 5u8) & 1) | (((hi >> 5u8) & 1) << 1u8)),
            PixelType::Window(((lo >> 4u8) & 1) | (((hi >> 4u8) & 1) << 1u8)),
            PixelType::Window(((lo >> 3u8) & 1) | (((hi >> 3u8) & 1) << 1u8)),
            PixelType::Window(((lo >> 2u8) & 1) | (((hi >> 2u8) & 1) << 1u8)),
            PixelType::Window(((lo >> 1u8) & 1) | (((hi >> 1u8) & 1) << 1u8)),
            PixelType::Window(((lo >> 0u8) & 1) | (((hi >> 0u8) & 1) << 1u8)),
        ]
    }

    /// The eight sprite pixels of a tile row, leftmost first.
    pub fn from_sprite_tile_data(lo: u8, hi: u8, palette_1: bool) -> (r: [Self; 8])
        ensures
            forall|k: int|
                0 <= k < 8 ==> r@[k] == (PixelType::Sprite { pixels: color_index(lo, hi, k), palette_1 }),
    {
        [
            PixelType::Sprite { pixels: ((lo >> 7u8) & 1) | (((hi >> 7u8) & 1) << 1u8), palette_1 },
            PixelType::Sprite { pixels: ((lo >> 6u8) & 1) | (((hi >> 6u8) & 1) << 1u8), palette_1 },
            PixelType::Sprite { pixels: ((lo >> 5u8) & 1) | (((hi >> 5u8) & 1) << 1u8), palette_1 },
            PixelType::Sprite { pixels: ((lo >> 4u8) & 1) | (((hi >> 4u8) & 1) << 1u8), palette_1 },
            PixelType::Sprite { pixels: ((lo >> 3u8) & 1) | (((hi >> 3u8) & 1) << 1u8), palette_1 },
            PixelType::Sprite { pixels: ((lo >> 2u8) & 1) | (((hi >> 2u8) & 1) << 1u8), palette_1 },
            PixelType::Sprite { pixels: ((lo >> 1u8) & 1) | (((hi >> 1u8) & 1) << 1u8), palette_1 },
            PixelType::Sprite { pixels: ((lo >> 0u8) & 1) | (((hi >> 0u8) & 1) << 1u8), palette_1 },
        ]
    }
}

} // verus!
