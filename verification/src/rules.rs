//! The per-cell update rule.
//!
//! A cell value is a fixed-point integer in thousandths: `CELL_ONE` (1000)
//! stands for a fully alive cell, 0 for a fully dead one.  A cell is "born"
//! (or sustained) when the sum of its eight neighbours lies in a window that
//! widens as the cell itself gets more alive: in real terms,
//! `2.8 - old <= neighbours <= 3.2`.  A sustained cell moves toward full
//! aliveness by `new = 0.9 * old + 0.1`; an unsustained one decays by
//! `new = 0.98 * old`.  In thousandths both rules are exact integer
//! arithmetic with truncating division.

use vstd::prelude::*;

verus! {

/// The value of a fully alive cell: 1.0 in thousandths.
pub const CELL_ONE: u32 = 1000;

/// Lower end of the birth window before the cell's own value is subtracted:
/// 2.8 in thousandths.
pub const BORN_LOW: u32 = 2800;

/// Upper end of the birth window: 3.2 in thousandths.
pub const BORN_HIGH: u32 = 3200;

/// The birth rule: the neighbour sum must reach `2.8 - old` and must not
/// exceed `3.2` (all in thousandths).
pub open spec fn becomes_alive(old_v: int, nb: int) -> bool {
    BORN_LOW - old_v <= nb && nb <= BORN_HIGH
}

/// The value of a sustained cell: `0.9 * old + 0.1` in thousandths,
/// with truncating division.
pub open spec fn grow_value(old_v: int) -> int {
    9 * old_v / 10 + CELL_ONE / 10
}

/// The value of an unsustained cell: `0.98 * old` in thousandths,
/// with truncating division.
pub open spec fn decay_value(old_v: int) -> int {
    98 * old_v / 100
}

/// The next value of a cell with value `old_v` whose neighbours sum to `nb`.
pub open spec fn next_value(old_v: int, nb: int) -> int {
    if becomes_alive(old_v, nb) {
        grow_value(old_v)
    } else {
        decay_value(old_v)
    }
}

/// Computes the next value of one cell from its own value and the sum of
/// its eight neighbours.  Values in `[0, CELL_ONE]` stay in `[0, CELL_ONE]`:
/// growth tops out at exactly `CELL_ONE` and decay never goes below zero,
/// so the grid never needs clamping.
pub fn step_cell(old_v: u32, nb: u32) -> (r: u32)
    requires
        old_v <= CELL_ONE,
        nb <= 8 * CELL_ONE,
    ensures
        r == next_value(old_v as int, nb as int),
        r <= CELL_ONE,
{
    if BORN_LOW <= nb + old_v && nb <= BORN_HIGH {
        old_v * 9 / 10 + CELL_ONE / 10
    } else {
        old_v * 98 / 100
    }
}

/// Decay is strictly decreasing: an unsustained cell with any aliveness at
/// all loses some of it every generation, and never goes below zero.
pub proof fn lemma_decay_strictly_decreases(v: int)
    by (nonlinear_arith)
    requires
        1 <= v,
    ensures
        0 <= decay_value(v) < v,
{
}

/// Decay never kills a cell outright: any value of at least two thousandths
/// stays positive for another generation, so an isolated alive cell fades
/// through many generations instead of vanishing in one.  (The one value
/// this cannot hold for is a single thousandth, which truncates to zero.)
pub proof fn lemma_decay_stays_positive(v: int)
    by (nonlinear_arith)
    requires
        2 <= v,
    ensures
        1 <= decay_value(v),
{
}

/// An isolated cell decays: with no alive neighbours the birth window is
/// out of reach for any value up to `CELL_ONE`, so the cell's value shrinks
/// strictly every generation.
pub proof fn lemma_isolated_cell_decays(v: int)
    requires
        1 <= v <= CELL_ONE,
    ensures
        next_value(v, 0) == decay_value(v),
        0 <= next_value(v, 0) < v,
{
    lemma_decay_strictly_decreases(v);
}

/// The value of an isolated cell (no alive neighbours, ever) after `n`
/// generations of the update rule.
pub open spec fn isolated_after(v: int, n: nat) -> int
    decreases n,
{
    if n == 0 {
        v
    } else {
        next_value(isolated_after(v, (n - 1) as nat), 0)
    }
}

/// Repeatedly stepping an isolated cell gives a trajectory that never
/// leaves `[0, v]` and strictly decreases as long as it is positive, so it
/// sinks toward zero; it stops only when truncation reaches zero itself.
pub proof fn lemma_isolated_trajectory(v: int, n: nat)
    requires
        0 <= v <= CELL_ONE,
    ensures
        0 <= isolated_after(v, n) <= v,
        isolated_after(v, n) >= 1 ==> isolated_after(v, (n + 1) as nat) < isolated_after(v, n),
    decreases n,
{
    if n > 0 {
        lemma_isolated_trajectory(v, (n - 1) as nat);
        let prev = isolated_after(v, (n - 1) as nat);
        if prev >= 1 {
            lemma_isolated_cell_decays(prev);
        }
    }
    let here = isolated_after(v, n);
    if here >= 1 {
        lemma_isolated_cell_decays(here);
    }
}

/// Toggling is an involution: painting the same cell twice restores its
/// old value, since each toggle replaces the value `v` by `CELL_ONE - v`.
pub proof fn lemma_toggle_involution(v: int)
    requires
        0 <= v <= CELL_ONE,
    ensures
        CELL_ONE - (CELL_ONE - v) == v,
{
}

} // verus!
