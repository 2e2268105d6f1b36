use vstd::prelude::*;
use std::collections::VecDeque;
use crate::ppu::pixel_type::PixelType;

verus! {

/// The background and window pixel FIFO: at most 16 pixels, each a colour
/// index below 4.
pub struct PixelFifo {
    pixels: VecDeque<PixelType>,
}

impl View for PixelFifo {
    type V = Seq<PixelType>;

    closed spec fn view(&self) -> Seq<PixelType> {
        self.pixels@
    }
}

/// Every pixel holds a colour index below 4.
pub open spec fn indices_in_range(s: Seq<PixelType>) -> bool {
    forall|i: int| 0 <= i < s.len() ==> (#[trigger] s[i]).index() < 4
}

impl Default for PixelFifo {
    fn default() -> (r: Self)
        ensures
            r@ == Seq::<PixelType>::empty(),
    {
        Self { pixels: VecDeque::with_capacity(16) }
    }
}

impl PixelFifo {
    pub open spec fn wf(&self) -> bool {
        self@.len() <= 16 && indices_in_range(self@)
    }

    /// Eight pixels or more are queued.
    pub(crate) fn can_pop(&self) -> (r: bool)
        ensures
            r == (self@.len() >= 8),
    {
        self.pixels.len() >= 8
    }

    /// Eight pixels or fewer are queued: a tile row fits.
    pub(crate) fn can_push(&self) -> (r: bool)
        ensures
            r == (self@.len() <= 8),
    {
        self.pixels.len() <= 8
    }

    pub(crate) fn pop(&mut self) -> (r: PixelType)
        requires
            old(self)@.len() >= 8,
        ensures
            r == old(self)@[0],
            final(self)@ == old(self)@.drop_first(),
    {
        match self.pixels.pop_front() {
            Some(p) => p,
            None => PixelType::Background(0),
        }
    }

    /// Queues a tile row behind the pixels already there.
    pub(crate) fn push_tile_pixel_row(&mut self, tile_pixel_row: [PixelType; 8])
        requires
            old(self)@.len() <= 8,
        ensures
            final(self)@ == old(self)@ + tile_pixel_row@,
    {
        let ghost start = self@;
        let mut i: usize = 0;
        while i < 8
            invariant
                i <= 8,
                self@ == start + tile_pixel_row@.subrange(0, i as int),
            decreases 8 - i,
        {
            self.pixels.push_back(tile_pixel_row[i]);
            assert(tile_pixel_row@.subrange(0, i + 1) =~= tile_pixel_row@.subrange(0, i as int).push(tile_pixel_row@[i as int]));
            i = i + 1;
        }
        assert(tile_pixel_row@.subrange(0, 8) =~= tile_pixel_row@);
    }

    /// Queues a tile row in front of the pixels already there.
    pub(crate) fn push_tile_pixel_row_front(&mut self, tile_pixel_row: [PixelType; 8])
        requires
            old(self)@.len() <= 8,
        ensures
            final(self)@ == tile_pixel_row@ + old(self)@,
    {
        let ghost start = self@;
        let mut i: usize = 8;
        while i > 0
            invariant
                i <= 8,
                self@ == tile_pixel_row@.subrange(i as int, 8) + start,
            decreases i,
        {
            i = i - 1;
            self.pixels.push_front(tile_pixel_row[i]);
            assert(tile_pixel_row@.subrange(i as int, 8) =~= seq![tile_pixel_row@[i as int]] + tile_pixel_row@.subrange(i + 1, 8));
        }
        assert(tile_pixel_row@.subrange(0, 8) =~= tile_pixel_row@);
    }

    pub fn reset(&mut self)
        ensures
            final(self)@ == Seq::<PixelType>::empty(),
    {
        self.pixels.clear();
    }

    /// Takes the first eight pixels.
    pub fn pop_front_8(&mut self) -> (r: [PixelType; 8])
        requires
            old(self)@.len() >= 8,
        ensures
            r@ == old(self)@.subrange(0, 8),
            final(self)@ == old(self)@.subrange(8, old(self)@.len() as int),
    {
        let mut res = [PixelType::Background(0); 8];
        let ghost start = self@;
        let mut i: usize = 0;
        while i < 8
            invariant
                i <= 8,
                start.len() >= 8,
                self@ == start.subrange(i as int, start.len() as int),
                forall|j: int| 0 <= j < i ==> res@[j] == start[j],
            decreases 8 - i,
        {
            let p = match self.pixels.pop_front() {
                Some(p) => p,
                None => PixelType::Background(0),
            };
            res[i] = p;
            i = i + 1;
        }
        assert(res@ =~= start.subrange(0, 8));
        res
    }
}

} // verus!
