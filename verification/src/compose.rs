//! The frame compositor.
//!
//! A grid is drawn as one grayscale texel per cell: a row-major RGBA byte
//! buffer with four bytes per cell, where a fully alive cell is black and a
//! fully dead one is white.  Composing is a pure function of the grid.

use vstd::prelude::*;
use vstd::arithmetic::div_mod::{
    lemma_fundamental_div_mod_converse_div,
    lemma_fundamental_div_mod_converse_mod,
};
use crate::grid::{cell_at, lemma_flat_index, Grid};
use crate::rules::CELL_ONE;

verus! {

/// The grayscale shade of a cell value in thousandths:
/// `255 - round(v * 255 / 1000)`, rounding to the nearest shade with halves
/// up, so fully alive (1000) maps to 0 (black) and fully dead (0) to 255
/// (white).
pub open spec fn shade(v: int) -> int {
    255 - (v * 255 + CELL_ONE / 2) / (CELL_ONE as int)
}

/// Byte `k` of the row-major RGBA pixel buffer of a `w` by `h` grid: four
/// bytes per texel, the texel for cell `(x, y)` at bytes `4 * (y * w + x)`
/// onward, its three colour channels equal to the cell's shade and its
/// alpha channel 255.
pub open spec fn pixel_byte(g: Seq<u32>, w: int, h: int, k: int) -> int {
    let t = k / 4;
    let x = t % w;
    let y = t / w;
    if k % 4 == 3 {
        255
    } else {
        shade(cell_at(g, h, x, y))
    }
}

/// The whole pixel buffer of a `w` by `h` grid: `4 * w * h` bytes.
pub open spec fn compose_spec(g: Seq<u32>, w: int, h: int) -> Seq<u8> {
    Seq::new((4 * w * h) as nat, |k: int| pixel_byte(g, w, h, k) as u8)
}

/// Computes the grayscale shade of one cell value.
pub fn shade_of(v: u32) -> (s: u8)
    requires
        v <= CELL_ONE,
    ensures
        s == shade(v as int),
{
    (255 - (v * 255 + CELL_ONE / 2) / CELL_ONE) as u8
}

/// Composing is a pure function of the grid: two pixel buffers composed
/// from the same grid are identical, byte for byte.
pub proof fn lemma_compose_deterministic(
    g: Seq<u32>,
    w: int,
    h: int,
    b1: Seq<u8>,
    b2: Seq<u8>,
)
    requires
        b1 == compose_spec(g, w, h),
        b2 == compose_spec(g, w, h),
    ensures
        b1 == b2,
{
}

/// Converts the grid into its row-major RGBA pixel buffer.
pub fn compose(g: &Grid) -> (r: Vec<u8>)
    requires
        g.wf(),
    ensures
        r@ == compose_spec(g@, g.width as int, g.height as int),
        r@.len() == 4 * g.width * g.height,
{
    let w = g.width;
    let h = g.height;
    let ghost target = compose_spec(g@, w as int, h as int);
    let mut buf: Vec<u8> = Vec::new();
    let mut y: usize = 0;
    while y < h
        invariant
            g.wf(),
            w == g.width,
            h == g.height,
            target == compose_spec(g@, w as int, h as int),
            y <= h,
            buf@.len() == 4 * (y * w),
            forall|k: int| 0 <= k < buf@.len() ==> buf@[k] == target[k],
        decreases h - y,
    {
        let mut x: usize = 0;
        while x < w
            invariant
                g.wf(),
                w == g.width,
                h == g.height,
                target == compose_spec(g@, w as int, h as int),
                y < h,
                x <= w,
                buf@.len() == 4 * (y * w + x),
                forall|k: int| 0 <= k < buf@.len() ==> buf@[k] == target[k],
            decreases w - x,
        {
            let ghost t = y * (w as int) + x;
            proof {
                lemma_flat_index(y as int, x as int, h as int, w as int);
                lemma_flat_index(x as int, y as int, w as int, h as int);
                lemma_fundamental_div_mod_converse_div(t, w as int, y as int, x as int);
                lemma_fundamental_div_mod_converse_mod(t, w as int, y as int, x as int);
                lemma_fundamental_div_mod_converse_div(4 * t, 4, t, 0);
                lemma_fundamental_div_mod_converse_mod(4 * t, 4, t, 0);
                lemma_fundamental_div_mod_converse_div(4 * t + 1, 4, t, 1);
                lemma_fundamental_div_mod_converse_mod(4 * t + 1, 4, t, 1);
                lemma_fundamental_div_mod_converse_div(4 * t + 2, 4, t, 2);
                lemma_fundamental_div_mod_converse_mod(4 * t + 2, 4, t, 2);
                lemma_fundamental_div_mod_converse_div(4 * t + 3, 4, t, 3);
                lemma_fundamental_div_mod_converse_mod(4 * t + 3, 4, t, 3);
                assert(t + 1 <= (h as int) * (w as int));
                assert(4 * t + 4 <= 4 * (w as int) * (h as int)) by (nonlinear_arith)
                    requires
                        t + 1 <= (h as int) * (w as int),
                ;
                assert(target.len() == 4 * (w as int) * (h as int));
            }
            let s = shade_of(g.get(x, y));
            buf.push(s);
            buf.push(s);
            buf.push(s);
            buf.push(255);
            x += 1;
        }
        proof {
            assert((y + 1) * w == y * w + w) by (nonlinear_arith);
        }
        y += 1;
    }
    proof {
        assert(4 * ((h * w) as int) == 4 * (w as int) * (h as int)) by (nonlinear_arith);
        assert(buf@ =~= target);
    }
    buf
}

} // verus!
