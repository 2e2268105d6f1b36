use vstd::prelude::*;
use std::collections::VecDeque;
use crate::mmu::sprite::Flag;

verus! {

/// The sprite pixel FIFO: colour indices with the attributes of their sprite.
pub struct SpritePixelFifo {
    pixels: VecDeque<(u8, Flag)>,
}

impl View for SpritePixelFifo {
    type V = Seq<(u8, Flag)>;

    closed spec fn view(&self) -> Seq<(u8, Flag)> {
        self.pixels@
    }
}

/// A sprite row merged into the FIFO: where a queued pixel is transparent
/// (colour 0) the new one takes its place, queued opaque pixels stay, and the
/// row's pixels past the queue are appended.
pub open spec fn merged(old: Seq<(u8, Flag)>, row: Seq<(u8, Flag)>) -> Seq<(u8, Flag)> {
    Seq::new(
        if old.len() >= 8 {
            old.len()
        } else {
            8
        },
        |i: int|
            if i < old.len() {
                if i < 8 && old[i].0 == 0 {
                    row[i]
                } else {
                    old[i]
                }
            } else {
                row[i]
            },
    )
}

impl Default for SpritePixelFifo {
    fn default() -> (r: Self)
        ensures
            r@ == Seq::<(u8, Flag)>::empty(),
    {
        Self { pixels: VecDeque::new() }
    }
}

impl SpritePixelFifo {
    pub open spec fn wf(&self) -> bool {
        forall|i: int| 0 <= i < self@.len() ==> (#[trigger] self@[i]).0 < 4
    }

    pub(crate) fn can_pop(&self) -> (r: bool)
        ensures
            r == (self@.len() >= 8),
    {
        self.pixels.len() >= 8
    }

    pub(crate) fn can_push(&self) -> (r: bool)
        ensures
            r == (self@.len() <= 8),
    {
        self.pixels.len() <= 8
    }

    /// Takes the first pixel, if there is one.
    pub(crate) fn pop(&mut self) -> (r: Option<(u8, Flag)>)
        ensures
            old(self)@.len() == 0 ==> r is None && final(self)@ == old(self)@,
            old(self)@.len() > 0 ==> r == Some(old(self)@[0]) && final(self)@ == old(self)@.drop_first(),
    {
        let r = self.pixels.pop_front();
        proof {
            if old(self)@.len() > 0 {
                assert(old(self)@.subrange(1, old(self)@.len() as int) =~= old(self)@.drop_first());
            }
        }
        r
    }

    pub(crate) fn push_tile_pixel_row(&mut self, tile_pixel_row: [(u8, Flag); 8])
        ensures
            final(self)@ == merged(old(self)@, tile_pixel_row@),
    {
        let ghost start = self@;
        let mut i: usize = 0;
        while i < 8
            invariant
                i <= 8,
                self@.len() == if start.len() >= i { start.len() } else { i as nat },
                forall|j: int| 0 <= j < i ==> self@[j] == merged(start, tile_pixel_row@)[j],
                forall|j: int| i <= j < self@.len() ==> self@[j] == start[j],
            decreases 8 - i,
        {
            if i < self.pixels.len() {
                if self.pixels[i].0 == 0 {
                    let ghost before = self@;
                    self.pixels.remove(i);
                    self.pixels.insert(i, tile_pixel_row[i]);
                    assert(self@ =~= before.update(i as int, tile_pixel_row@[i as int]));
                }
            } else {
                self.pixels.push_back(tile_pixel_row[i]);
            }
            i = i + 1;
        }
        assert(self@ =~= merged(start, tile_pixel_row@));
    }

    pub fn reset(&mut self)
        ensures
            final(self)@ == Seq::<(u8, Flag)>::empty(),
    {
        self.pixels.clear();
    }
}

} // verus!
