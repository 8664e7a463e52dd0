use vstd::prelude::*;

verus! {

/// Width of the monochrome framebuffer, in pixels.
pub const DISPLAY_WIDTH: usize = 64;

/// Height of the monochrome framebuffer, in pixels.
pub const DISPLAY_HEIGHT: usize = 32;

/// Number of pixels in the framebuffer.
pub const DISPLAY_SIZE: usize = 64 * 32;

/// Index into the pixel grid of the cell a sprite pixel lands on: both
/// coordinates wrap around the screen edges.
pub open spec fn pix(x: int, y: int) -> int {
    (y % 32) * 64 + (x % 64)
}

/// The sprite-row mask selecting bit `j` (counted from the most significant
/// bit, which is the leftmost pixel of the row).
pub open spec fn bit_mask(j: int) -> u8 {
    if j == 0 {
        0x80
    } else if j == 1 {
        0x40
    } else if j == 2 {
        0x20
    } else if j == 3 {
        0x10
    } else if j == 4 {
        0x08
    } else if j == 5 {
        0x04
    } else if j == 6 {
        0x02
    } else if j == 7 {
        0x01
    } else {
        0
    }
}

/// Whether pixel `j` (from the left) of a sprite row is set.
pub open spec fn sprite_bit(bits: u8, j: int) -> bool {
    bits & bit_mask(j) != 0
}

/// The grid after XOR-drawing the leftmost `j` pixels of the sprite row
/// `bits` at `(x, y)`: each set sprite bit toggles the pixel it lands on.
pub open spec fn draw_row(g: Seq<bool>, x: int, y: int, bits: u8, j: nat) -> Seq<bool>
    decreases j,
{
    if j == 0 {
        g
    } else {
        let g2 = draw_row(g, x, y, bits, (j - 1) as nat);
        if sprite_bit(bits, j - 1) {
            let p = pix(x + j - 1, y);
            g2.update(p, !g2[p])
        } else {
            g2
        }
    }
}

/// Whether XOR-drawing the leftmost `j` pixels of the sprite row `bits` at
/// `(x, y)` turns some previously set pixel off.
pub open spec fn row_collision(g: Seq<bool>, x: int, y: int, bits: u8, j: nat) -> bool
    decreases j,
{
    if j == 0 {
        false
    } else {
        ||| row_collision(g, x, y, bits, (j - 1) as nat)
        ||| (sprite_bit(bits, j - 1) && draw_row(g, x, y, bits, (j - 1) as nat)[pix(
            x + j - 1,
            y,
        )])
    }
}

/// A wrapped pixel index always lands inside a full-size grid.
pub proof fn lemma_pix_bounds(x: int, y: int)
    ensures
        0 <= pix(x, y) < 2048,
{
    assert(0 <= y % 32 < 32);
    assert(0 <= x % 64 < 64);
}

/// Drawing a sprite row never changes the size of the grid.
pub proof fn lemma_draw_row_len(g: Seq<bool>, x: int, y: int, bits: u8, j: nat)
    requires
        g.len() == 2048,
    ensures
        draw_row(g, x, y, bits, j).len() == 2048,
    decreases j,
{
    if j > 0 {
        lemma_draw_row_len(g, x, y, bits, (j - 1) as nat);
        lemma_pix_bounds(x + j - 1, y);
    }
}

/// The fixed monochrome pixel grid the draw operation composes sprites onto.
/// Pixels are stored row by row: the pixel at column `c` of row `r` is entry
/// `r * 64 + c`.
pub struct Display {
    /// One entry per pixel; `true` is lit.
    pub grid: Vec<bool>,
}

impl Display {
    /// Well-formed: one entry per pixel of the 64 by 32 grid.
    pub open spec fn wf(&self) -> bool {
        self.grid@.len() == 2048
    }

    /// A display with every pixel cleared.
    pub fn new() -> (d: Display)
        ensures
            d.wf(),
            forall|i: int| 0 <= i < 2048 ==> !d.grid@[i],
    {
        let mut grid: Vec<bool> = Vec::new();
        let mut i: usize = 0;
        while i < 2048
            invariant
                i <= 2048,
                grid@.len() == i,
                forall|j: int| 0 <= j < i ==> !grid@[j],
            decreases 2048 - i,
        {
            grid.push(false);
            i += 1;
        }
        Display { grid }
    }

    /// Clear every pixel.
    pub fn clear(&mut self)
        requires
            old(self).wf(),
        ensures
            final(self).wf(),
            forall|i: int| 0 <= i < 2048 ==> !final(self).grid@[i],
    {
        let mut i: usize = 0;
        while i < 2048
            invariant
                i <= 2048,
                self.grid@.len() == 2048,
                forall|j: int| 0 <= j < i ==> !self.grid@[j],
            decreases 2048 - i,
        {
            self.grid.set(i, false);
            i += 1;
        }
    }

    /// The mask selecting bit `j` of a sprite row, leftmost pixel first.
    fn bit_mask_at(j: usize) -> (m: u8)
        ensures
            m == bit_mask(j as int),
    {
        if j == 0 {
            0x80
        } else if j == 1 {
            0x40
        } else if j == 2 {
            0x20
        } else if j == 3 {
            0x10
        } else if j == 4 {
            0x08
        } else if j == 5 {
            0x04
        } else if j == 6 {
            0x02
        } else if j == 7 {
            0x01
        } else {
            0
        }
    }

    /// XOR-draw one 8-pixel sprite row at `(x, y)`, wrapping around both
    /// screen edges, and report whether a previously set pixel was cleared.
    pub fn draw_byte(&mut self, x: usize, y: usize, bits: u8) -> (collision: bool)
        requires
            old(self).wf(),
            x + 8 <= usize::MAX,
        ensures
            final(self).wf(),
            final(self).grid@ == draw_row(old(self).grid@, x as int, y as int, bits, 8),
            collision == row_collision(old(self).grid@, x as int, y as int, bits, 8),
    {
        let ghost g0 = self.grid@;
        let mut collision = false;
        let mut j: usize = 0;
        while j < 8
            invariant
                j <= 8,
                x + 8 <= usize::MAX,
                g0.len() == 2048,
                self.grid@.len() == 2048,
                self.grid@ == draw_row(g0, x as int, y as int, bits, j as nat),
                collision == row_collision(g0, x as int, y as int, bits, j as nat),
            decreases 8 - j,
        {
            proof {
                lemma_draw_row_len(g0, x as int, y as int, bits, j as nat);
            }
            let mask = Self::bit_mask_at(j);
            if bits & mask != 0 {
                let col = (x + j) % 64;
                let row = (y % 32) * 64;
                let idx = row + col;
                proof {
                    lemma_pix_bounds(x as int + j as int, y as int);
                    assert(idx as int == pix(x as int + j as int, y as int));
                }
                let prev = self.grid[idx];
                if prev {
                    collision = true;
                }
                let lit = !prev;
                self.grid.set(idx, lit);
            }
            j += 1;
        }
        collision
    }
}

/// Distinct sprite-row masks never share a bit; a mask always selects itself.
proof fn lemma_bit_masks()
    ensures
        forall|j: int, k: int|
            0 <= j < 8 && 0 <= k < 8 ==> ((#[trigger] (bit_mask(j) & bit_mask(k))) != 0 <==> j
                == k),
{
    assert(0x80u8 & 0x80u8 != 0 && 0x40u8 & 0x40u8 != 0 && 0x20u8 & 0x20u8 != 0 && 0x10u8 & 0x10u8
        != 0 && 0x08u8 & 0x08u8 != 0 && 0x04u8 & 0x04u8 != 0 && 0x02u8 & 0x02u8 != 0 && 0x01u8
        & 0x01u8 != 0) by (bit_vector);
    assert(0x80u8 & 0x40u8 == 0 && 0x80u8 & 0x20u8 == 0 && 0x80u8 & 0x10u8 == 0 && 0x80u8 & 0x08u8
        == 0 && 0x80u8 & 0x04u8 == 0 && 0x80u8 & 0x02u8 == 0 && 0x80u8 & 0x01u8 == 0 && 0x40u8
        & 0x80u8 == 0 && 0x40u8 & 0x20u8 == 0 && 0x40u8 & 0x10u8 == 0 && 0x40u8 & 0x08u8 == 0
        && 0x40u8 & 0x04u8 == 0 && 0x40u8 & 0x02u8 == 0 && 0x40u8 & 0x01u8 == 0) by (bit_vector);
    assert(0x20u8 & 0x80u8 == 0 && 0x20u8 & 0x40u8 == 0 && 0x20u8 & 0x10u8 == 0 && 0x20u8 & 0x08u8
        == 0 && 0x20u8 & 0x04u8 == 0 && 0x20u8 & 0x02u8 == 0 && 0x20u8 & 0x01u8 == 0 && 0x10u8
        & 0x80u8 == 0 && 0x10u8 & 0x40u8 == 0 && 0x10u8 & 0x20u8 == 0 && 0x10u8 & 0x08u8 == 0
        && 0x10u8 & 0x04u8 == 0 && 0x10u8 & 0x02u8 == 0 && 0x10u8 & 0x01u8 == 0) by (bit_vector);
    assert(0x08u8 & 0x80u8 == 0 && 0x08u8 & 0x40u8 == 0 && 0x08u8 & 0x20u8 == 0 && 0x08u8 & 0x10u8
        == 0 && 0x08u8 & 0x04u8 == 0 && 0x08u8 & 0x02u8 == 0 && 0x08u8 & 0x01u8 == 0 && 0x04u8
        & 0x80u8 == 0 && 0x04u8 & 0x40u8 == 0 && 0x04u8 & 0x20u8 == 0 && 0x04u8 & 0x10u8 == 0
        && 0x04u8 & 0x08u8 == 0 && 0x04u8 & 0x02u8 == 0 && 0x04u8 & 0x01u8 == 0) by (bit_vector);
    assert(0x02u8 & 0x80u8 == 0 && 0x02u8 & 0x40u8 == 0 && 0x02u8 & 0x20u8 == 0 && 0x02u8 & 0x10u8
        == 0 && 0x02u8 & 0x08u8 == 0 && 0x02u8 & 0x04u8 == 0 && 0x02u8 & 0x01u8 == 0 && 0x01u8
        & 0x80u8 == 0 && 0x01u8 & 0x40u8 == 0 && 0x01u8 & 0x20u8 == 0 && 0x01u8 & 0x10u8 == 0
        && 0x01u8 & 0x08u8 == 0 && 0x01u8 & 0x04u8 == 0 && 0x01u8 & 0x02u8 == 0) by (bit_vector);
}

/// Drawing the first `m` pixels of a one-pixel sprite row whose set bit is
/// bit `j` toggles exactly the pixel under bit `j` once `m` passes it, and
/// collides exactly when that pixel was already lit.
proof fn lemma_draw_single(g: Seq<bool>, x: int, y: int, j: int, m: nat)
    requires
        g.len() == 2048,
        0 <= j < 8,
        m <= 8,
    ensures
        draw_row(g, x, y, bit_mask(j), m) == if j < m {
            g.update(pix(x + j, y), !g[pix(x + j, y)])
        } else {
            g
        },
        row_collision(g, x, y, bit_mask(j), m) == (j < m && g[pix(x + j, y)]),
    decreases m,
{
    lemma_bit_masks();
    if m > 0 {
        lemma_draw_single(g, x, y, j, (m - 1) as nat);
        lemma_pix_bounds(x + j, y);
    }
}

/// A one-pixel sprite drawn on a clear pixel lights it without collision;
/// drawing the same sprite again at the same coordinates clears the pixel
/// back and reports a collision, leaving the whole grid as it began.
pub proof fn lemma_draw_twice_single_pixel(g: Seq<bool>, x: int, y: int, j: int)
    requires
        g.len() == 2048,
        0 <= j < 8,
        !g[pix(x + j, y)],
    ensures
        !row_collision(g, x, y, bit_mask(j), 8),
        draw_row(g, x, y, bit_mask(j), 8)[pix(x + j, y)],
        row_collision(draw_row(g, x, y, bit_mask(j), 8), x, y, bit_mask(j), 8),
        draw_row(draw_row(g, x, y, bit_mask(j), 8), x, y, bit_mask(j), 8) =~= g,
{
    lemma_pix_bounds(x + j, y);
    lemma_draw_single(g, x, y, j, 8);
    let g1 = draw_row(g, x, y, bit_mask(j), 8);
    lemma_draw_single(g1, x, y, j, 8);
}

} // verus!
