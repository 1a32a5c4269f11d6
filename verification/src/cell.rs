//! A cell of the grid, and a queued exchange of two cells.

use vstd::prelude::*;
use crate::material::ElementData;

verus! {

/// What one slot of the grid holds: a material, a temperature in fixed-point
/// steps, and the latch that is set while a combustible material burns.
#[derive(Copy, Clone, Debug)]
pub struct Cell {
    pub element_data: ElementData,
    pub heat_value: i32,
    pub active: bool,
}

impl Cell {
    /// A cell of `element_data` at zero degrees that is not burning.
    pub open spec fn fresh(element_data: ElementData) -> Cell {
        Cell { element_data, heat_value: 0, active: false }
    }

    /// A cell of air at zero degrees.
    pub fn default() -> (c: Self)
        ensures
            c == Cell::fresh(ElementData::air()),
    {
        Cell { element_data: ElementData::air_element(), heat_value: 0, active: false }
    }

    /// A cell of the given material at zero degrees that is not burning.
    pub fn new(element_data: ElementData) -> (c: Self)
        ensures
            c == Cell::fresh(element_data),
    {
        Cell { element_data, heat_value: 0, active: false }
    }
}

/// A queued exchange of the cells at `(i1, j1)` and `(i2, j2)`.
#[derive(Copy, Clone, Debug)]
pub struct Swap {
    pub i1: u32,
    pub j1: u32,
    pub i2: u32,
    pub j2: u32,
}

impl Swap {
    /// The exchange of the cells at `(i1, j1)` and `(i2, j2)`.
    pub fn new_u32(i1: u32, j1: u32, i2: u32, j2: u32) -> (s: Self)
        ensures
            s == (Swap { i1, j1, i2, j2 }),
    {
        Swap { i1, j1, i2, j2 }
    }

    /// The same exchange from coordinates held as `usize`; each must fit
    /// in a `u32`.
    pub fn new_usize(i1: usize, j1: usize, i2: usize, j2: usize) -> (s: Self)
        requires
            i1 <= u32::MAX,
            j1 <= u32::MAX,
            i2 <= u32::MAX,
            j2 <= u32::MAX,
        ensures
            s.i1 == i1,
            s.j1 == j1,
            s.i2 == i2,
            s.j2 == j2,
    {
        Swap { i1: i1 as u32, j1: j1 as u32, i2: i2 as u32, j2: j2 as u32 }
    }
}

} // verus!
