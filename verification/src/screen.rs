use vstd::prelude::*;

verus! {

/// Width of the picture in pixels.
pub const SCREEN_WIDTH: usize = 160;

/// Height of the picture in pixels.
pub const SCREEN_HEIGHT: usize = 144;

/// The shade that a pixel's colour number selects: numbers above 3 take the
/// last shade.
pub open spec fn shade_of(palette: [u32; 4], px: u8) -> u32 {
    if px < 3 {
        palette@[px as int]
    } else {
        palette@[3]
    }
}

/// Byte `k` (0 red, 1 green, 2 blue) of a shade written as `0xRRGGBB`.
pub open spec fn channel(color: u32, k: int) -> u8 {
    if k == 0 {
        ((color >> 16u32) & 0xFF) as u8
    } else if k == 1 {
        ((color >> 8u32) & 0xFF) as u8
    } else {
        (color & 0xFF) as u8
    }
}

/// Where the pixel at column `x` and line `y` starts in a picture of four
/// bytes a pixel, line after line.
pub open spec fn pixel_offset(x: int, y: int) -> int {
    (y * 160 + x) * 4
}

/// The pixels of a picture held column by column, as one run of bytes line
/// after line.
pub open spec fn rows_of(lcd: [[u8; 144]; 160]) -> Seq<u8> {
    Seq::new(160 * 144, |i: int| lcd@[i % 160]@[i / 160])
}

/// `rows_of`, computed: pixel `(x, y)` lands at `y * 160 + x`.
pub fn lcd_rows(lcd: &[[u8; 144]; 160]) -> (r: Vec<u8>)
    ensures
        r@ == rows_of(*lcd),
        forall|x: int, y: int| 0 <= x < 160 && 0 <= y < 144 ==> #[trigger] r@[y * 160 + x] == lcd@[x]@[y],
{
    let mut out: Vec<u8> = Vec::new();
    let mut y: usize = 0;
    while y < SCREEN_HEIGHT
        invariant
            y <= 144,
            out@.len() == y * 160,
            forall|i: int| 0 <= i < out@.len() ==> #[trigger] out@[i] == lcd@[i % 160]@[i / 160],
        decreases 144 - y,
    {
        let mut x: usize = 0;
        while x < SCREEN_WIDTH
            invariant
                y < 144,
                x <= 160,
                out@.len() == y * 160 + x,
                forall|i: int| 0 <= i < out@.len() ==> #[trigger] out@[i] == lcd@[i % 160]@[i / 160],
            decreases 160 - x,
        {
            proof {
                let i = y * 160 + x;
                assert(i % 160 == x && i / 160 == y) by (nonlinear_arith)
                    requires
                        i == y * 160 + x,
                        x < 160,
                ;
            }
            out.push(lcd[x][y]);
            x = x + 1;
        }
        y = y + 1;
    }
    assert(out@ =~= rows_of(*lcd));
    assert forall|x: int, y: int| 0 <= x < 160 && 0 <= y < 144 implies #[trigger] out@[y * 160 + x] == lcd@[x]@[y] by {
        let i = y * 160 + x;
        assert(i % 160 == x && i / 160 == y && 0 <= i < 160 * 144) by (nonlinear_arith)
            requires
                i == y * 160 + x,
                0 <= x < 160,
                0 <= y < 144,
        ;
    }
    out
}

/// The picture as red, green, blue and opaque alpha bytes, line after line,
/// each pixel in the shade of `palette` that its colour number selects.
pub fn frame_rgba(lcd: &[[u8; 144]; 160], palette: &[u32; 4]) -> (r: Vec<u8>)
    ensures
        r@.len() == 160 * 144 * 4,
        forall|x: int, y: int, k: int|
            0 <= x < 160 && 0 <= y < 144 && 0 <= k < 3 ==> #[trigger] r@[pixel_offset(x, y) + k] == channel(
                shade_of(*palette, lcd@[x]@[y]),
                k,
            ),
        forall|x: int, y: int| 0 <= x < 160 && 0 <= y < 144 ==> #[trigger] r@[pixel_offset(x, y) + 3] == 0xFF,
{
    let rows = lcd_rows(lcd);
    let mut out: Vec<u8> = Vec::new();
    let mut i: usize = 0;
    while i < rows.len()
        invariant
            rows@ == rows_of(*lcd),
            i <= rows@.len(),
            out@.len() == i * 4,
            forall|j: int, k: int|
                0 <= j < i && 0 <= k < 3 ==> #[trigger] out@[j * 4 + k] == channel(shade_of(*palette, rows@[j]), k),
            forall|j: int| 0 <= j < i ==> #[trigger] out@[j * 4 + 3] == 0xFF,
        decreases rows@.len() - i,
    {
        let px = rows[i];
        let color: u32 = if px == 0 {
            palette[0]
        } else if px == 1 {
            palette[1]
        } else if px == 2 {
            palette[2]
        } else {
            palette[3]
        };
        out.push(((color >> 16u32) & 0xFF) as u8);
        out.push(((color >> 8u32) & 0xFF) as u8);
        out.push((color & 0xFF) as u8);
        out.push(0xFF);
        proof {
            assert forall|j: int, k: int| 0 <= j < i + 1 && 0 <= k < 3 implies #[trigger] out@[j * 4 + k]
                == channel(shade_of(*palette, rows@[j]), k) by {
                if j < i {
                    assert(j * 4 + k < i * 4);
                }
            }
            assert forall|j: int| 0 <= j < i + 1 implies #[trigger] out@[j * 4 + 3] == 0xFF by {
                if j < i {
                    assert(j * 4 + 3 < i * 4);
                }
            }
        }
        i = i + 1;
    }
    assert forall|x: int, y: int, k: int| 0 <= x < 160 && 0 <= y < 144 && 0 <= k < 3 implies #[trigger] out@[pixel_offset(
        x,
        y,
    ) + k] == channel(shade_of(*palette, lcd@[x]@[y]), k) by {
        let j = y * 160 + x;
        assert(0 <= j < 160 * 144) by (nonlinear_arith)
            requires
                j == y * 160 + x,
                0 <= x < 160,
                0 <= y < 144,
        ;
        assert(rows@[j] == lcd@[x]@[y]);
        assert(pixel_offset(x, y) + k == j * 4 + k);
    }
    assert forall|x: int, y: int| 0 <= x < 160 && 0 <= y < 144 implies #[trigger] out@[pixel_offset(x, y) + 3]
        == 0xFF by {
        let j = y * 160 + x;
        assert(0 <= j < 160 * 144) by (nonlinear_arith)
            requires
                j == y * 160 + x,
                0 <= x < 160,
                0 <= y < 144,
        ;
        assert(pixel_offset(x, y) + 3 == j * 4 + 3);
    }
    out
}

} // verus!
