//! The simulation state and its event dispatch.
//!
//! A `SimState` owns the two grid buffers (one current, one scratch), the
//! paint flag and the last known viewport size.  Events arrive one at a
//! time, in any order: update ticks step the automaton into the scratch
//! buffer and swap roles, render ticks and resizes record the viewport, and
//! while the primary button is held each pointer move toggles the cell
//! under the pointer.

use vstd::prelude::*;
use vstd::arithmetic::div_mod::{
    lemma_div_is_ordered,
    lemma_div_multiples_vanish,
    lemma_fundamental_div_mod,
    lemma_mod_bound,
};
use vstd::arithmetic::mul::lemma_mul_inequality;
use crate::grid::{cell_at, Grid};
use crate::rules::CELL_ONE;
use crate::step::{step_spec, update};

verus! {

/// One pixel, in the fixed-point units of pointer coordinates: a pointer
/// coordinate counts thousandths of a pixel.
pub const COORD_ONE: u64 = 1000;

/// A pointer button: the primary button paints, any other is ignored.
#[derive(Clone, Copy)]
pub enum Button {
    Primary,
    Secondary,
}

/// One event from the window and scheduling collaborator, in the order it
/// was dispatched.  Pointer coordinates are viewport pixels in thousandths
/// (`COORD_ONE` per pixel); they need not lie inside the viewport, and a
/// pointer left of or above the window reports negative coordinates.
#[derive(Clone, Copy)]
pub enum Event {
    /// The window was resized to the given width and height in pixels.
    Resize(u32, u32),
    /// One logical simulation tick: step every cell one generation.
    Update,
    /// A frame is about to be drawn into a viewport of the given pixel size.
    Render(u32, u32),
    /// A pointer button went down.
    Press(Button),
    /// A pointer button came up.
    Release(Button),
    /// The pointer moved to the given viewport position.
    PointerMove(i64, i64),
}

/// The grid coordinate under a pointer coordinate `p` (in thousandths of a
/// pixel), for a viewport `win` pixels across showing `n` cells:
/// `floor(p / win * n)`, written over integers as `p * n / (win * 1000)`.
pub open spec fn map_coord(p: int, win: int, n: int) -> int {
    p * n / (win * COORD_ONE)
}

/// The owner of the double-buffered grid pair, the paint flag and the last
/// known viewport size.
pub struct SimState {
    /// One of the two grid buffers.
    pub front: Grid,
    /// The other grid buffer, always of the same dimensions.
    pub back: Grid,
    /// Which buffer holds the most recently computed generation.
    pub front_is_current: bool,
    /// True while the primary button is held: pointer moves paint.
    pub paint: bool,
    /// Viewport width in pixels, from the last resize or render event.
    pub window_width: u32,
    /// Viewport height in pixels, from the last resize or render event.
    pub window_height: u32,
}

impl SimState {
    /// Well-formedness: both buffers are well-formed grids of the same
    /// dimensions.
    pub open spec fn wf(&self) -> bool {
        &&& self.front.wf()
        &&& self.back.wf()
        &&& self.back.width == self.front.width
        &&& self.back.height == self.front.height
    }

    /// The grid width in cells.
    pub open spec fn grid_width(&self) -> int {
        self.front.width as int
    }

    /// The grid height in cells.
    pub open spec fn grid_height(&self) -> int {
        self.front.height as int
    }

    /// The current generation: the contents of whichever buffer was written
    /// last.
    pub open spec fn cur(&self) -> Seq<u32> {
        if self.front_is_current {
            self.front@
        } else {
            self.back@
        }
    }

    /// The value of cell `(i, j)` of the current generation.
    pub open spec fn cur_cell(&self, i: int, j: int) -> int {
        cell_at(self.cur(), self.grid_height(), i, j)
    }

    /// Builds a simulation around an initial grid; painting starts off and
    /// the scratch buffer starts dead.
    pub fn new(initial: Grid, window_width: u32, window_height: u32) -> (s: SimState)
        requires
            initial.wf(),
        ensures
            s.wf(),
            s.cur() == initial@,
            s.grid_width() == initial.width,
            s.grid_height() == initial.height,
            !s.paint,
            s.window_width == window_width,
            s.window_height == window_height,
    {
        let scratch = Grid::new(initial.width, initial.height);
        SimState {
            front: initial,
            back: scratch,
            front_is_current: true,
            paint: false,
            window_width,
            window_height,
        }
    }

    /// Borrows the buffer holding the current generation, for composing or
    /// inspection.
    pub fn current(&self) -> (g: &Grid)
        requires
            self.wf(),
        ensures
            g.wf(),
            g@ == self.cur(),
            g.width == self.grid_width(),
            g.height == self.grid_height(),
    {
        if self.front_is_current {
            &self.front
        } else {
            &self.back
        }
    }

    /// One generation: steps the current buffer into the scratch buffer,
    /// then swaps their roles.  The new current generation is exactly the
    /// stepped image of the old one — no cell reads a value written in the
    /// same generation — and the viewport and paint state are untouched.
    pub fn advance(&mut self)
        requires
            old(self).wf(),
        ensures
            final(self).wf(),
            final(self).cur() == step_spec(
                old(self).cur(),
                old(self).grid_width(),
                old(self).grid_height(),
            ),
            final(self).grid_width() == old(self).grid_width(),
            final(self).grid_height() == old(self).grid_height(),
            final(self).paint == old(self).paint,
            final(self).window_width == old(self).window_width,
            final(self).window_height == old(self).window_height,
    {
        if self.front_is_current {
            update(&self.front, &mut self.back);
        } else {
            update(&self.back, &mut self.front);
        }
        self.front_is_current = !self.front_is_current;
    }

    /// Records a new viewport size; the grids and the paint flag are
    /// untouched.
    pub fn resize(&mut self, w: u32, h: u32)
        requires
            old(self).wf(),
        ensures
            final(self).wf(),
            final(self).window_width == w,
            final(self).window_height == h,
            final(self).cur() == old(self).cur(),
            final(self).grid_width() == old(self).grid_width(),
            final(self).grid_height() == old(self).grid_height(),
            final(self).paint == old(self).paint,
    {
        self.window_width = w;
        self.window_height = h;
    }

    /// A button went down: the primary button turns painting on, any other
    /// button changes nothing.
    pub fn press(&mut self, b: Button)
        requires
            old(self).wf(),
        ensures
            final(self).wf(),
            final(self).paint == (old(self).paint || b matches Button::Primary),
            final(self).cur() == old(self).cur(),
            final(self).grid_width() == old(self).grid_width(),
            final(self).grid_height() == old(self).grid_height(),
            final(self).window_width == old(self).window_width,
            final(self).window_height == old(self).window_height,
    {
        match b {
            Button::Primary => {
                self.paint = true;
            },
            Button::Secondary => {},
        }
    }

    /// A button came up: the primary button turns painting off, any other
    /// button changes nothing.
    pub fn release(&mut self, b: Button)
        requires
            old(self).wf(),
        ensures
            final(self).wf(),
            final(self).paint == (old(self).paint && !(b matches Button::Primary)),
            final(self).cur() == old(self).cur(),
            final(self).grid_width() == old(self).grid_width(),
            final(self).grid_height() == old(self).grid_height(),
            final(self).window_width == old(self).window_width,
            final(self).window_height == old(self).window_height,
    {
        match b {
            Button::Primary => {
                self.paint = false;
            },
            Button::Secondary => {},
        }
    }

    /// The pointer moved.  While painting, the position is mapped through
    /// the recorded viewport size to a grid cell and that one cell is
    /// toggled; a move that maps outside the grid (a negative position, a
    /// stale viewport during a resize, or a zero-sized viewport) changes
    /// nothing, silently.
    pub fn pointer_move(&mut self, x: i64, y: i64)
        requires
            old(self).wf(),
        ensures
            final(self).wf(),
            final(self).paint == old(self).paint,
            final(self).grid_width() == old(self).grid_width(),
            final(self).grid_height() == old(self).grid_height(),
            final(self).window_width == old(self).window_width,
            final(self).window_height == old(self).window_height,
            ({
                let gx = map_coord(x as int, old(self).window_width as int, old(self).grid_width());
                let gy = map_coord(y as int, old(self).window_height as int, old(self).grid_height());
                if old(self).paint && old(self).window_width > 0 && old(self).window_height > 0
                    && 0 <= gx < old(self).grid_width() && 0 <= gy < old(self).grid_height() {
                    final(self).cur() == old(self).cur().update(
                        gx * old(self).grid_height() + gy,
                        (CELL_ONE - old(self).cur_cell(gx, gy)) as u32,
                    )
                } else {
                    final(self).cur() == old(self).cur()
                }
            }),
    {
        if !self.paint {
            return;
        }
        if self.window_width == 0 || self.window_height == 0 {
            return;
        }
        let gw = self.front.width;
        let gh = self.front.height;
        if x < 0 {
            proof {
                lemma_negative_coord(x as int, self.window_width as int, gw as int);
            }
            return;
        }
        if y < 0 {
            proof {
                lemma_negative_coord(y as int, self.window_height as int, gh as int);
            }
            return;
        }
        let x: u64 = x as u64;
        let y: u64 = y as u64;
        let ww: u64 = self.window_width as u64 * COORD_ONE;
        let wh: u64 = self.window_height as u64 * COORD_ONE;
        if x >= ww {
            proof {
                lemma_coord_at_or_past_edge(x as int, self.window_width as int, gw as int);
            }
            return;
        }
        if y >= wh {
            proof {
                lemma_coord_at_or_past_edge(y as int, self.window_height as int, gh as int);
            }
            return;
        }
        proof {
            assert(x * gw <= 0xFFFF_FFFFu64 * 1000 * 4096 && y * gh <= 0xFFFF_FFFFu64 * 1000
                * 4096) by (nonlinear_arith)
                requires
                    x < ww,
                    y < wh,
                    ww <= 0xFFFF_FFFFu64 * 1000,
                    wh <= 0xFFFF_FFFFu64 * 1000,
                    gw <= 4096,
                    gh <= 4096,
            ;
        }
        let gx64 = x * gw as u64 / ww;
        let gy64 = y * gh as u64 / wh;
        if gx64 >= gw as u64 || gy64 >= gh as u64 {
            return;
        }
        let gx = gx64 as usize;
        let gy = gy64 as usize;
        if self.front_is_current {
            self.front.toggle(gx, gy);
        } else {
            self.back.toggle(gx, gy);
        }
    }

    /// Dispatches one event to its handler; see the handlers for what each
    /// event does to the state.
    pub fn handle_event(&mut self, e: Event)
        requires
            old(self).wf(),
        ensures
            final(self).wf(),
            final(self).grid_width() == old(self).grid_width(),
            final(self).grid_height() == old(self).grid_height(),
            (e matches Event::Resize(w, h) ==> final(self).window_width == w
                && final(self).window_height == h && final(self).cur() == old(self).cur()
                && final(self).paint == old(self).paint),
            (e matches Event::Render(w, h) ==> final(self).window_width == w
                && final(self).window_height == h && final(self).cur() == old(self).cur()
                && final(self).paint == old(self).paint),
            (e matches Event::Update ==> final(self).cur() == step_spec(
                old(self).cur(),
                old(self).grid_width(),
                old(self).grid_height(),
            ) && final(self).paint == old(self).paint
                && final(self).window_width == old(self).window_width
                && final(self).window_height == old(self).window_height),
            (e matches Event::Press(b) ==> final(self).paint == (old(self).paint
                || b matches Button::Primary) && final(self).cur() == old(self).cur()
                && final(self).window_width == old(self).window_width
                && final(self).window_height == old(self).window_height),
            (e matches Event::Release(b) ==> final(self).paint == (old(self).paint && !(b
                matches Button::Primary)) && final(self).cur() == old(self).cur()
                && final(self).window_width == old(self).window_width
                && final(self).window_height == old(self).window_height),
            (e matches Event::PointerMove(x, y) ==> final(self).paint == old(self).paint
                && final(self).window_width == old(self).window_width
                && final(self).window_height == old(self).window_height && ({
                let gx = map_coord(x as int, old(self).window_width as int, old(self).grid_width());
                let gy = map_coord(
                    y as int,
                    old(self).window_height as int,
                    old(self).grid_height(),
                );
                if old(self).paint && old(self).window_width > 0 && old(self).window_height > 0
                    && 0 <= gx < old(self).grid_width() && 0 <= gy < old(self).grid_height() {
                    final(self).cur() == old(self).cur().update(
                        gx * old(self).grid_height() + gy,
                        (CELL_ONE - old(self).cur_cell(gx, gy)) as u32,
                    )
                } else {
                    final(self).cur() == old(self).cur()
                }
            })),
    {
        match e {
            Event::Resize(w, h) => self.resize(w, h),
            Event::Update => self.advance(),
            Event::Render(w, h) => self.resize(w, h),
            Event::Press(b) => self.press(b),
            Event::Release(b) => self.release(b),
            Event::PointerMove(x, y) => self.pointer_move(x, y),
        }
    }
}

/// A negative pointer coordinate (left of or above the viewport) maps to a
/// negative grid coordinate, so such a move is ignored.
proof fn lemma_negative_coord(p: int, win: int, n: int)
    requires
        1 <= win,
        1 <= n,
        p < 0,
    ensures
        map_coord(p, win, n) < 0,
{
    let d = win * COORD_ONE;
    lemma_mul_inequality(p, -1, n);
    lemma_fundamental_div_mod(p * n, d);
    lemma_mod_bound(p * n, d);
    assert(p * n / d < 0) by (nonlinear_arith)
        requires
            p * n <= -1,
            d >= 1,
            p * n == d * (p * n / d) + (p * n % d),
            0 <= (p * n % d) < d,
    ;
}

/// A pointer coordinate at or past the far edge of the viewport maps to a
/// grid coordinate at or past the far edge of the grid, so such a move is
/// ignored.
proof fn lemma_coord_at_or_past_edge(p: int, win: int, n: int)
    requires
        1 <= win,
        1 <= n,
        p >= win * COORD_ONE,
    ensures
        map_coord(p, win, n) >= n,
{
    let d = win * COORD_ONE;
    lemma_mul_inequality(d, p, n);
    lemma_div_is_ordered(d * n, p * n, d);
    lemma_div_multiples_vanish(n, d);
}

} // verus!
