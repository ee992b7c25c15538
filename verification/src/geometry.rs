//! Exact, integer descriptions of where things are and how large they are drawn.
//!
//! Continuous poses belong to the host that draws and moves things. What the
//! rules fix about geometry is discrete: the pixel centre of a level cell, a
//! scale that is an exact fraction, a distance or a speed in whole units.

use vstd::prelude::*;

verus! {

/// Width of a level cell in pixels.
pub const CELL_WIDTH: u32 = 40;

/// Height of a level cell in pixels.
pub const CELL_HEIGHT: u32 = 40;

/// A point on the pixel grid.
#[derive(Copy, Clone, PartialEq, Eq, Structural, Debug)]
pub struct GridPoint {
    pub x: u32,
    pub y: u32,
}

/// A scale factor kept as an exact fraction.
#[derive(Copy, Clone, PartialEq, Eq, Structural, Debug)]
pub struct Ratio {
    pub numerator: u32,
    pub denominator: u32,
}

impl Ratio {
    /// The fraction `numerator / denominator`.
    pub fn new(numerator: u32, denominator: u32) -> (r: Ratio)
        ensures
            r == (Ratio { numerator, denominator }),
    {
        Ratio { numerator, denominator }
    }

    /// The scale that leaves a texture at its own size.
    pub fn one() -> (r: Ratio)
        ensures
            r == (Ratio { numerator: 1, denominator: 1 }),
    {
        Ratio { numerator: 1, denominator: 1 }
    }
}

/// The largest row or column index whose cell centre still fits the pixel grid.
pub const MAX_CELL_INDEX: u32 = 107_374_181;

/// Pixel centre of the cell in column `column` and row `row`.
pub open spec fn cell_center(column: int, row: int) -> GridPoint {
    GridPoint {
        x: (column * CELL_WIDTH + CELL_WIDTH / 2) as u32,
        y: (row * CELL_HEIGHT + CELL_HEIGHT / 2) as u32,
    }
}

/// Computes [`cell_center`]; both indices must be small enough for the centre
/// to be a pixel coordinate.
pub fn center_of_cell(column: u32, row: u32) -> (p: GridPoint)
    requires
        column <= MAX_CELL_INDEX,
        row <= MAX_CELL_INDEX,
    ensures
        p == cell_center(column as int, row as int),
        p.x == column * 40 + 20,
        p.y == row * 40 + 20,
{
    GridPoint { x: column * CELL_WIDTH + CELL_WIDTH / 2, y: row * CELL_HEIGHT + CELL_HEIGHT / 2 }
}

} // verus!
