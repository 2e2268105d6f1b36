use vstd::prelude::*;
use crate::mmu::lcdc::bit;
use crate::mmu::sprite::{Flag, Sprite};
use crate::mmu::{MMU, MmuState};

verus! {

/// The number of entries in the object attribute memory.
pub const OAM_ENTRIES: usize = 40;

/// The most sprites a scanline shows.
pub const MAX_LINE_SPRITES: usize = 10;

/// Entry `i` of the object attribute memory.
pub open spec fn oam_entry(oam: Seq<u8>, i: int) -> Sprite {
    Sprite { y: oam[4 * i], x: oam[4 * i + 1], tiledata_index: oam[4 * i + 2], flags: Flag(oam[4 * i + 3]) }
}

/// The sprite height that LCDC selects.
pub open spec fn sprite_height_of(lcdc: u8) -> u8 {
    if bit(lcdc, 2) {
        16
    } else {
        8
    }
}

/// Whether a sprite is on scanline `ly`: it is on screen horizontally and
/// the line crosses it (sprite coordinates are offset by 16 rows; sums wrap
/// at 8 bits).
pub open spec fn on_line(s: Sprite, ly: u8, height: u8) -> bool {
    &&& s.x > 0
    &&& ly.wrapping_add(16) >= s.y
    &&& ly.wrapping_add(16) < s.y.wrapping_add(height)
}

/// The OAM scan of mode 2: one entry every two cycles, 40 entries.
pub struct OAMSearch {
    pub current_entry: usize,
    pub cycle_available: u8,
}

impl Default for OAMSearch {
    fn default() -> (r: Self)
        ensures
            r.current_entry == 0 && r.cycle_available == 0,
    {
        Self { current_entry: 0, cycle_available: 0 }
    }
}

impl OAMSearch {
    pub open spec fn wf(&self) -> bool {
        self.current_entry < OAM_ENTRIES && self.cycle_available < 2
    }

    /// Whether this cycle of the scan finishes its 40th entry.
    pub open spec fn finishes(self) -> bool {
        self.cycle_available == 1 && self.current_entry + 1 == OAM_ENTRIES
    }

    /// One cycle of the scan, as `cycle` makes it, from the scan `self` and
    /// the sprite buffer `buf` to `next` and `buf2`, on the bus `m`.
    pub open spec fn cycled(self, m: MmuState, buf: Seq<Sprite>, next: OAMSearch, buf2: Seq<Sprite>) -> bool {
        &&& next.wf()
        &&& (self.cycle_available == 0 ==> {
            &&& next == (OAMSearch { cycle_available: 1, ..self })
            &&& buf2 == buf
        })
        &&& (self.cycle_available == 1 ==> {
            let s = oam_entry(m.oam, self.current_entry as int);
            let keep = on_line(s, m.ly, sprite_height_of(m.lcdc)) && buf.len() < MAX_LINE_SPRITES;
            &&& buf2 == if keep {
                buf.push(s)
            } else {
                buf
            }
            &&& next.cycle_available == 0
            &&& next.current_entry == if self.current_entry + 1 == OAM_ENTRIES {
                0
            } else {
                self.current_entry + 1
            }
        })
    }

    /// One cycle of the scan. On every second cycle the next entry is read and
    /// kept in `sprite_buffer` when it is on the current line and the buffer
    /// holds fewer than ten sprites. Returns true when the 40th entry is done;
    /// the scan then starts over.
    pub fn cycle(&mut self, mmu: &MMU, sprite_buffer: &mut Vec<Sprite>) -> (r: bool)
        requires
            old(self).wf(),
            mmu@.wf(),
        ensures
            old(self).cycled(mmu@, old(sprite_buffer)@, *final(self), final(sprite_buffer)@),
            r == old(self).finishes(),
    {
        self.cycle_available = self.cycle_available + 1;
        if self.cycle_available >= 2 {
            self.cycle_available = self.cycle_available - 2;
            let ly = mmu.ly();
            let lcdc = mmu.lcdc();
            let sprite_height = lcdc.sprite_height();
            let oam_index = self.current_entry * 4;
            let oam = mmu.oam();
            let sprite = Sprite::new(oam[oam_index], oam[oam_index + 1], oam[oam_index + 2], oam[oam_index + 3]);
            if sprite.x() > 0 && ly.wrapping_add(16) >= sprite.y() && ly.wrapping_add(16) < sprite.y().wrapping_add(sprite_height)
                && sprite_buffer.len() < MAX_LINE_SPRITES {
                sprite_buffer.push(sprite);
            }
            self.current_entry = self.current_entry + 1;
        }
        if self.current_entry == OAM_ENTRIES {
            self.reset();
            true
        } else {
            false
        }
    }

    pub fn reset(&mut self)
        ensures
            final(self).cycle_available == 0 && final(self).current_entry == 0,
    {
        self.cycle_available = 0;
        self.current_entry = 0;
    }
}


/// The sprite buffer after the scan has looked at the first `j` entries:
/// each entry on line `ly` is appended, in index order, while the buffer
/// holds fewer than ten.
pub open spec fn selected(oam: Seq<u8>, ly: u8, height: u8, buf: Seq<Sprite>, j: nat) -> Seq<Sprite>
    decreases j,
{
    if j == 0 {
        buf
    } else {
        let b = selected(oam, ly, height, buf, (j - 1) as nat);
        let s = oam_entry(oam, j - 1);
        if on_line(s, ly, height) && b.len() < MAX_LINE_SPRITES {
            b.push(s)
        } else {
            b
        }
    }
}

/// `k` cycles of the scan on a bus that stays `m`, from `o` and `buf`, as
/// `OAMSearch::cycled` makes each.
pub open spec fn scan_steps(o: OAMSearch, m: MmuState, buf: Seq<Sprite>, k: nat) -> (OAMSearch, Seq<Sprite>)
    decreases k,
{
    if k == 0 {
        (o, buf)
    } else {
        let (p, b) = scan_steps(o, m, buf, (k - 1) as nat);
        if p.cycle_available == 0 {
            (OAMSearch { cycle_available: 1, ..p }, b)
        } else {
            let s = oam_entry(m.oam, p.current_entry as int);
            let keep = on_line(s, m.ly, sprite_height_of(m.lcdc)) && b.len() < MAX_LINE_SPRITES;
            (
                OAMSearch {
                    cycle_available: 0,
                    current_entry: if p.current_entry + 1 == OAM_ENTRIES { 0 } else { (p.current_entry + 1) as usize },
                },
                if keep { b.push(s) } else { b },
            )
        }
    }
}

/// A scan started afresh takes two cycles an entry: after `2 j` cycles
/// (`j` at most 40) it stands at entry `j` (back at 0 after the 40th) with the
/// buffer holding the selection of the first `j` entries; its 80th cycle is
/// the one that finishes.
pub proof fn lemma_scan(m: MmuState, buf: Seq<Sprite>, j: nat)
    requires
        j <= OAM_ENTRIES,
    ensures
        scan_steps(OAMSearch { current_entry: 0, cycle_available: 0 }, m, buf, 2 * j) == (
            OAMSearch { current_entry: if j == OAM_ENTRIES { 0 } else { j as usize }, cycle_available: 0 },
            selected(m.oam, m.ly, sprite_height_of(m.lcdc), buf, j),
        ),
        j < OAM_ENTRIES ==> scan_steps(OAMSearch { current_entry: 0, cycle_available: 0 }, m, buf, 2 * j + 1).0.finishes()
            == (j + 1 == OAM_ENTRIES),
    decreases j,
{
    let o = OAMSearch { current_entry: 0, cycle_available: 0 };
    if j > 0 {
        lemma_scan(m, buf, (j - 1) as nat);
        let k0 = (2 * (j - 1)) as nat;
        let k1 = (k0 + 1) as nat;
        assert(((k1 - 1) as nat) == k0);
        assert(((2 * j - 1) as nat) == k1);
        let p0 = scan_steps(o, m, buf, k0);
        assert(scan_steps(o, m, buf, k1) == (OAMSearch { cycle_available: 1, ..p0.0 }, p0.1));
    }
}


/// A cycle of the scan, as `OAMSearch::cycle` states it, is one step of
/// `scan_steps`.
pub proof fn lemma_cycle_is_scan_step(o: OAMSearch, m: MmuState, buf: Seq<Sprite>, next: OAMSearch, buf2: Seq<Sprite>)
    requires
        o.wf(),
        o.cycled(m, buf, next, buf2),
    ensures
        (next, buf2) == scan_steps(o, m, buf, 1),
{
    assert(scan_steps(o, m, buf, 0) == (o, buf));
}

} // verus!
