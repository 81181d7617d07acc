//! The grid of cells.
//!
//! A `Grid` is a fixed-size rectangle of cell values, stored flat with the
//! column index varying slowest: cell `(i, j)` lives at `i * height + j`.
//! Its dimensions never change after construction, and every cell value
//! stays in `[0, CELL_ONE]`.

use vstd::prelude::*;
use crate::rules::CELL_ONE;

verus! {

/// The largest grid dimension the library accepts; keeps every flat index
/// and the four-bytes-per-cell pixel buffer length comfortably inside
/// `usize` and `u32` arithmetic.
pub const MAX_DIM: usize = 4096;

/// The cell at column `i`, row `j` of a flattened grid whose rows have
/// length `h`.
pub open spec fn cell_at(g: Seq<u32>, h: int, i: int, j: int) -> int {
    g[i * h + j] as int
}

/// A flat index `i * h + j` stays below `w * h` and within `MAX_DIM * MAX_DIM`
/// whenever `(i, j)` is in bounds for a `w` by `h` grid.
pub proof fn lemma_flat_index(i: int, j: int, w: int, h: int)
    by (nonlinear_arith)
    requires
        0 <= i < w,
        0 <= j < h,
        w <= MAX_DIM,
        h <= MAX_DIM,
    ensures
        0 <= i * h + j < w * h,
        w * h <= MAX_DIM * MAX_DIM,
{
}

/// A fixed-size rectangular grid of cell values in thousandths.
pub struct Grid {
    /// Number of columns; fixed at construction.
    pub width: usize,
    /// Number of rows; fixed at construction.
    pub height: usize,
    /// Cell values, flat: cell `(i, j)` is at `i * height + j`.
    pub cells: Vec<u32>,
}

impl View for Grid {
    type V = Seq<u32>;

    open spec fn view(&self) -> Seq<u32> {
        self.cells@
    }
}

impl Grid {
    /// Well-formedness: nonzero bounded dimensions, a cell for every grid
    /// position, and every value at most `CELL_ONE`.
    pub open spec fn wf(&self) -> bool {
        &&& 1 <= self.width <= MAX_DIM
        &&& 1 <= self.height <= MAX_DIM
        &&& self.cells@.len() == self.width * self.height
        &&& forall|k: int| 0 <= k < self.cells@.len() ==> self.cells@[k] <= CELL_ONE
    }

    /// The value of cell `(i, j)` as a mathematical integer.
    pub open spec fn spec_cell(&self, i: int, j: int) -> int {
        cell_at(self@, self.height as int, i, j)
    }

    /// Builds an all-dead grid of the given dimensions.
    pub fn new(width: usize, height: usize) -> (g: Grid)
        requires
            1 <= width <= MAX_DIM,
            1 <= height <= MAX_DIM,
        ensures
            g.wf(),
            g.width == width,
            g.height == height,
            forall|k: int| 0 <= k < g@.len() ==> g@[k] == 0,
    {
        proof {
            lemma_flat_index(0, 0, width as int, height as int);
        }
        let n = width * height;
        let cells = vec![0u32; n];
        Grid { width, height, cells }
    }

    /// Builds a grid from explicit cell values, checking every
    /// well-formedness condition at run time: `Some` exactly when the
    /// dimensions are in range, the value vector has one entry per cell,
    /// and no value exceeds `CELL_ONE`.
    pub fn from_cells(width: usize, height: usize, cells: Vec<u32>) -> (r: Option<Grid>)
        ensures
            r is Some <==> {
                &&& 1 <= width <= MAX_DIM
                &&& 1 <= height <= MAX_DIM
                &&& cells@.len() == width * height
                &&& forall|k: int| 0 <= k < cells@.len() ==> cells@[k] <= CELL_ONE
            },
            r is Some ==> {
                &&& r->Some_0.wf()
                &&& r->Some_0.width == width
                &&& r->Some_0.height == height
                &&& r->Some_0@ == cells@
            },
    {
        if width < 1 || width > MAX_DIM || height < 1 || height > MAX_DIM {
            return None;
        }
        proof {
            lemma_flat_index(0, 0, width as int, height as int);
        }
        let n = width * height;
        if cells.len() != n {
            return None;
        }
        let mut k: usize = 0;
        while k < n
            invariant
                n == cells@.len(),
                k <= n,
                forall|m: int| 0 <= m < k ==> cells@[m] <= CELL_ONE,
            decreases n - k,
        {
            if cells[k] > CELL_ONE {
                return None;
            }
            k += 1;
        }
        Some(Grid { width, height, cells })
    }

    /// Seeds a grid from one random draw per cell: cell `k` starts fully
    /// alive when `draws[k] < threshold`, fully dead otherwise.  A caller
    /// gets an alive fraction of about `threshold / 2^32` from uniform
    /// `u32` draws.
    pub fn seeded(width: usize, height: usize, draws: &Vec<u32>, threshold: u32) -> (g: Grid)
        requires
            1 <= width <= MAX_DIM,
            1 <= height <= MAX_DIM,
            draws@.len() == width * height,
        ensures
            g.wf(),
            g.width == width,
            g.height == height,
            forall|k: int| 0 <= k < g@.len()
                ==> g@[k] == (if draws@[k] < threshold { CELL_ONE } else { 0u32 }),
    {
        proof {
            lemma_flat_index(0, 0, width as int, height as int);
        }
        let n = width * height;
        let mut cells: Vec<u32> = Vec::new();
        let mut k: usize = 0;
        while k < n
            invariant
                n == draws@.len(),
                k <= n,
                cells@.len() == k,
                forall|m: int| 0 <= m < k
                    ==> cells@[m] == (if draws@[m] < threshold { CELL_ONE } else { 0u32 }),
            decreases n - k,
        {
            if draws[k] < threshold {
                cells.push(CELL_ONE);
            } else {
                cells.push(0);
            }
            k += 1;
        }
        Grid { width, height, cells }
    }

    /// Reads the value of cell `(i, j)`.
    pub fn get(&self, i: usize, j: usize) -> (v: u32)
        requires
            self.wf(),
            i < self.width,
            j < self.height,
        ensures
            v == self.spec_cell(i as int, j as int),
            v <= CELL_ONE,
    {
        proof {
            lemma_flat_index(i as int, j as int, self.width as int, self.height as int);
        }
        self.cells[i * self.height + j]
    }

    /// Overwrites the value of cell `(i, j)`; every other cell is kept.
    pub fn set(&mut self, i: usize, j: usize, v: u32)
        requires
            old(self).wf(),
            i < old(self).width,
            j < old(self).height,
            v <= CELL_ONE,
        ensures
            final(self).wf(),
            final(self).width == old(self).width,
            final(self).height == old(self).height,
            final(self)@ == old(self)@.update(i * old(self).height + j, v),
    {
        proof {
            lemma_flat_index(i as int, j as int, self.width as int, self.height as int);
        }
        let k = i * self.height + j;
        self.cells[k] = v;
    }

    /// Toggles cell `(i, j)` between alive and dead: the new value is
    /// `CELL_ONE` minus the old one, so painting a cell twice restores it.
    pub fn toggle(&mut self, i: usize, j: usize)
        requires
            old(self).wf(),
            i < old(self).width,
            j < old(self).height,
        ensures
            final(self).wf(),
            final(self).width == old(self).width,
            final(self).height == old(self).height,
            final(self)@ == old(self)@.update(
                i * old(self).height + j,
                (CELL_ONE - old(self).spec_cell(i as int, j as int)) as u32,
            ),
    {
        let v = self.get(i, j);
        self.set(i, j, CELL_ONE - v);
    }
}

} // verus!
