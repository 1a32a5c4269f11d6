//! What a renderer is handed: the cells that show, and the heat map.
//!
//! Colours of cells are RGBA bytes. The channels of the heat map are
//! thousandths of full intensity, [`FULL`] being full intensity.

use vstd::prelude::*;
use crate::cell::Cell;
use crate::material::HEAT_UNIT;
use crate::model::{slot, CELLS, ROWS};

verus! {

/// Full intensity of a channel of the heat map.
pub const FULL: i32 = 1000;

/// The fixed-point steps of temperature that make one thousandth of full
/// intensity: the heat map is at full intensity at 2000 degrees above or
/// below zero.
pub const GLOW_STEP: i32 = 2 * HEAT_UNIT;

/// A cell that shows: where it is, and its colour.
#[derive(Copy, Clone, Debug)]
pub struct Tile {
    pub x: u32,
    pub y: u32,
    pub color: (u8, u8, u8, u8),
}

/// A cell on the heat map: where it is, and its colour. The colour is
/// opaque, and a channel exceeds `FULL` or drops below zero where the cell is
/// more than 2000 degrees from zero.
#[derive(Copy, Clone, Debug)]
pub struct Shade {
    pub x: u32,
    pub y: u32,
    pub red: i32,
    pub green: i32,
    pub blue: i32,
}

/// The column of the `k`-th cell a renderer is handed: it is handed the grid
/// column by column.
pub open spec fn look_col(k: int) -> int {
    k / (ROWS as int)
}

/// The row of the `k`-th cell a renderer is handed: within a column, upwards
/// from row 0.
pub open spec fn look_row(k: int) -> int {
    k % (ROWS as int)
}

/// The `k`-th cell a renderer is handed, with its colour.
pub open spec fn tile_at(cells: Seq<Cell>, k: int) -> Tile {
    Tile {
        x: look_col(k) as u32,
        y: look_row(k) as u32,
        color: cells[slot(look_col(k), look_row(k))].element_data.color,
    }
}

/// A tile shows unless it is fully transparent.
pub open spec fn shows(tile: Tile) -> bool {
    tile.color.3 != 0
}

/// The tiles among `all` that show, in the order they have in `all`.
pub open spec fn showing(all: Seq<Tile>) -> Seq<Tile> {
    all.filter(|tile: Tile| shows(tile))
}

/// Every cell as a tile, in the order a renderer is handed them.
pub open spec fn tiles(cells: Seq<Cell>) -> Seq<Tile> {
    Seq::new(CELLS as nat, |k: int| tile_at(cells, k))
}

/// How far a temperature lies from zero, in thousandths of full intensity.
pub open spec fn glow(heat: i32) -> int {
    if heat >= 0 {
        heat / GLOW_STEP
    } else {
        (-heat) / (GLOW_STEP as int)
    }
}

/// The colour of a temperature on the heat map. From zero degrees upwards
/// it goes from green to red, from zero downwards from green to blue.
pub open spec fn shade_of(x: u32, y: u32, heat: i32) -> Shade {
    if heat >= 0 {
        Shade { x, y, red: glow(heat) as i32, green: (FULL - glow(heat)) as i32, blue: 0 }
    } else {
        Shade { x, y, red: 0, green: (FULL - glow(heat)) as i32, blue: glow(heat) as i32 }
    }
}

/// The `k`-th cell a renderer is handed, with its colour on the heat map.
pub open spec fn shade_at(cells: Seq<Cell>, k: int) -> Shade {
    shade_of(
        look_col(k) as u32,
        look_row(k) as u32,
        cells[slot(look_col(k), look_row(k))].heat_value,
    )
}

/// Every cell on the heat map, in the order a renderer is handed them.
pub open spec fn shades(cells: Seq<Cell>) -> Seq<Shade> {
    Seq::new(CELLS as nat, |k: int| shade_at(cells, k))
}

/// The colour of the cell at `(x, y)` on the heat map, given its temperature.
pub fn shade(x: u32, y: u32, heat: i32) -> (s: Shade)
    ensures
        s == shade_of(x, y, heat),
{
    if heat >= 0 {
        let level = heat / GLOW_STEP;
        Shade { x, y, red: level, green: FULL - level, blue: 0 }
    } else {
        let level = ((-(heat as i64)) / (GLOW_STEP as i64)) as i32;
        Shade { x, y, red: 0, green: FULL - level, blue: level }
    }
}

} // verus!
