//! The automaton stepper.
//!
//! One generation maps a whole grid to a new grid: every cell's next value
//! is `next_value` of its own value and the sum of its eight toroidal
//! neighbours.  All neighbour reads observe the previous generation; the
//! result is written to a separate output grid, so stepping is a pure
//! function of the input grid.

use vstd::prelude::*;
use vstd::arithmetic::div_mod::{
    lemma_fundamental_div_mod_converse_div,
    lemma_fundamental_div_mod_converse_mod,
};
use crate::grid::{cell_at, lemma_flat_index, Grid, MAX_DIM};
use crate::rules::{next_value, CELL_ONE};
use crate::rules::step_cell;

verus! {

/// The toroidal predecessor of index `i` among `n` positions:
/// `(i - 1) mod n` for `0 <= i < n`.
pub open spec fn wrap_dec(i: int, n: int) -> int {
    if i == 0 {
        n - 1
    } else {
        i - 1
    }
}

/// The toroidal successor of index `i` among `n` positions:
/// `(i + 1) mod n` for `0 <= i < n`.
pub open spec fn wrap_inc(i: int, n: int) -> int {
    if i == n - 1 {
        0
    } else {
        i + 1
    }
}

/// The sum of the eight toroidal neighbours of cell `(i, j)` in a `w` by `h`
/// grid: one read per offset in `{-1, 0, 1}^2` except `(0, 0)`, each index
/// wrapped around the grid edge.
pub open spec fn neighbour_sum(g: Seq<u32>, w: int, h: int, i: int, j: int) -> int {
    let il = wrap_dec(i, w);
    let ir = wrap_inc(i, w);
    let ju = wrap_dec(j, h);
    let jd = wrap_inc(j, h);
    cell_at(g, h, il, ju) + cell_at(g, h, il, j) + cell_at(g, h, il, jd)
        + cell_at(g, h, i, ju) + cell_at(g, h, i, jd)
        + cell_at(g, h, ir, ju) + cell_at(g, h, ir, j) + cell_at(g, h, ir, jd)
}

/// The whole next generation of a flattened `w` by `h` grid: every cell is
/// stepped from the same input generation.
pub open spec fn step_spec(g: Seq<u32>, w: int, h: int) -> Seq<u32> {
    Seq::new(
        (w * h) as nat,
        |k: int| next_value(g[k] as int, neighbour_sum(g, w, h, k / h, k % h)) as u32,
    )
}

/// Computes the sum of the eight toroidal neighbours of cell `(i, j)`.
#[verifier::rlimit(50)]
pub fn neighbours(g: &Grid, i: usize, j: usize) -> (r: u32)
    requires
        g.wf(),
        i < g.width,
        j < g.height,
    ensures
        r == neighbour_sum(g@, g.width as int, g.height as int, i as int, j as int),
        r <= 8 * CELL_ONE,
{
    let il = if i == 0 { g.width - 1 } else { i - 1 };
    let ir = if i == g.width - 1 { 0 } else { i + 1 };
    let ju = if j == 0 { g.height - 1 } else { j - 1 };
    let jd = if j == g.height - 1 { 0 } else { j + 1 };
    g.get(il, ju) + g.get(il, j) + g.get(il, jd)
        + g.get(i, ju) + g.get(i, jd)
        + g.get(ir, ju) + g.get(ir, j) + g.get(ir, jd)
}

/// Computes one full generation: reads every cell of `current`, writes the
/// stepped grid into `output`.  The two grids must be distinct values (they
/// are, by Rust's aliasing rules), so every neighbour read observes the
/// input generation.
pub fn update(current: &Grid, output: &mut Grid)
    requires
        current.wf(),
        old(output).wf(),
        old(output).width == current.width,
        old(output).height == current.height,
    ensures
        final(output).wf(),
        final(output).width == current.width,
        final(output).height == current.height,
        final(output)@ == step_spec(current@, current.width as int, current.height as int),
{
    let w = current.width;
    let h = current.height;
    let ghost target = step_spec(current@, w as int, h as int);
    let mut next: Vec<u32> = Vec::new();
    let mut i: usize = 0;
    while i < w
        invariant
            current.wf(),
            w == current.width,
            h == current.height,
            target == step_spec(current@, w as int, h as int),
            i <= w,
            next@.len() == i * h,
            forall|k: int| 0 <= k < next@.len() ==> next@[k] == target[k],
            forall|k: int| 0 <= k < next@.len() ==> next@[k] <= CELL_ONE,
        decreases w - i,
    {
        let mut j: usize = 0;
        proof {
            lemma_flat_index(i as int, 0, w as int, h as int);
        }
        while j < h
            invariant
                current.wf(),
                w == current.width,
                h == current.height,
                target == step_spec(current@, w as int, h as int),
                i < w,
                j <= h,
                next@.len() == i * h + j,
                forall|k: int| 0 <= k < next@.len() ==> next@[k] == target[k],
                forall|k: int| 0 <= k < next@.len() ==> next@[k] <= CELL_ONE,
            decreases h - j,
        {
            let ghost k = i * h + j;
            proof {
                lemma_flat_index(i as int, j as int, w as int, h as int);
                lemma_fundamental_div_mod_converse_div(k as int, h as int, i as int, j as int);
                lemma_fundamental_div_mod_converse_mod(k as int, h as int, i as int, j as int);
            }
            let nb = neighbours(current, i, j);
            let v = step_cell(current.get(i, j), nb);
            next.push(v);
            j += 1;
        }
        proof {
            assert((i + 1) * h == i * h + h) by (nonlinear_arith);
        }
        i += 1;
    }
    proof {
        assert(next@ =~= target);
    }
    output.cells = next;
}

/// A `w` by `h` grid that is dead except for fully alive cells in its four
/// corners.
pub open spec fn corners_grid(w: int, h: int) -> Seq<u32> {
    Seq::new(
        (w * h) as nat,
        |k: int|
            if k == 0 || k == h - 1 || k == (w - 1) * h || k == w * h - 1 {
                CELL_ONE
            } else {
                0u32
            },
    )
}

/// Toroidal wrap at the corners: in a grid that is dead except at its four
/// corners, every corner sees exactly the three other corners among its
/// eight neighbours — edge cells neighbour the opposite edge — so each
/// corner's neighbour sum is three fully alive cells.
#[verifier::rlimit(50)]
pub proof fn lemma_corner_wrap(w: int, h: int)
    requires
        3 <= w <= MAX_DIM,
        3 <= h <= MAX_DIM,
    ensures
        neighbour_sum(corners_grid(w, h), w, h, 0, 0) == 3 * CELL_ONE,
        neighbour_sum(corners_grid(w, h), w, h, 0, h - 1) == 3 * CELL_ONE,
        neighbour_sum(corners_grid(w, h), w, h, w - 1, 0) == 3 * CELL_ONE,
        neighbour_sum(corners_grid(w, h), w, h, w - 1, h - 1) == 3 * CELL_ONE,
{
    let g = corners_grid(w, h);
    let t = w * h;
    assert((w - 1) * h == t - h && (w - 2) * h == t - 2 * h && t >= 3 * h) by (nonlinear_arith)
        requires
            3 <= w,
            3 <= h,
            t == w * h,
    ;
    assert(neighbour_sum(g, w, h, 0, 0) == 3 * CELL_ONE);
    assert(neighbour_sum(g, w, h, 0, h - 1) == 3 * CELL_ONE);
    assert(neighbour_sum(g, w, h, w - 1, 0) == 3 * CELL_ONE);
    assert(neighbour_sum(g, w, h, w - 1, h - 1) == 3 * CELL_ONE);
}

} // verus!
