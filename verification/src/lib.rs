//! A continuous-valued, toroidal Game-of-Life variant.
//!
//! Cells hold a degree of aliveness rather than a bit.  Each generation a
//! cell looks at the sum of its eight toroidal neighbours and either grows
//! toward full aliveness or decays toward death.  The library also turns a
//! grid into a grayscale RGBA pixel buffer and routes pointer input that
//! paints cells while a button is held.
//!
//! All cell values and pointer coordinates are fixed-point integers in
//! thousandths, so that every rule is exact integer arithmetic.

pub mod compose;
pub mod grid;
pub mod rules;
pub mod sim;
pub mod step;
