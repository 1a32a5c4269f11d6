//! What a tick is: the grid as a sequence of cells, and the tick as a
//! function of the cells before it and of what was drawn while it ran.

use vstd::prelude::*;
use crate::cell::{Cell, Swap};
use crate::material::{CellType, ElementData};
use crate::rules::{
    catches, diffused, flame_after, fuel_of, gas_drift, gas_passes, grain_way, ice_after,
    kindled, lava_after, liquid_way, methane_ignites, smouldered, spent, steam_after,
    water_after, Fuel, Way, FLAME_DECAY, METHANE_FLAME, ROLL_BOUND,
};

verus! {

/// The width of the grid, in cells.
pub const COLS: i32 = 210;

/// The height of the grid, in cells.
pub const ROWS: i32 = 210;

/// The number of cells in the grid.
pub const CELLS: usize = 44100;

/// The number of cells inside the border, the ones a tick visits.
pub const INNER_CELLS: usize = 43264;

/// The chance, per mille, that steam or methane drifts to either side.
pub const VAPOUR_SPREAD: u32 = 330;

/// The chance, per mille, that a flame drifts to either side.
pub const FLAME_SPREAD: u32 = 250;

/// The chance, per mille, that lava sets a neighbouring cell of air alight.
pub const LAVA_SPARK: u32 = 50;

/// The lifetime of a fire that lava starts.
pub const LAVA_FLAME: i16 = 20;

/// Whether `(x, y)` is a cell of the grid.
pub open spec fn in_grid(x: int, y: int) -> bool {
    0 <= x < COLS && 0 <= y < ROWS
}

/// Whether `(x, y)` lies inside the border: the cells a tick visits and a
/// brush can paint.
pub open spec fn interior(x: int, y: int) -> bool {
    1 <= x < COLS - 1 && 1 <= y < ROWS - 1
}

/// Whether `(x, y)` lies on the border, the outermost ring of the grid.
pub open spec fn on_border(x: int, y: int) -> bool {
    in_grid(x, y) && !interior(x, y)
}

/// Where the cell `(x, y)` stands in the sequence of cells: rows follow one
/// another, row 0 first.
pub open spec fn slot(x: int, y: int) -> int {
    y * COLS + x
}

/// The cell `(x, y)` of a sequence of cells.
pub open spec fn cell_at(cells: Seq<Cell>, x: int, y: int) -> Cell {
    cells[slot(x, y)]
}

/// Whether the border holds nothing but the solid material.
pub open spec fn walled(cells: Seq<Cell>) -> bool {
    forall|x: int, y: int|
        on_border(x, y) ==> (#[trigger] cell_at(cells, x, y)).element_data == ElementData::solid()
}

/// The cell next to `(x, y)` in the direction `way`.
pub open spec fn toward(x: int, y: int, way: Way) -> (int, int) {
    match way {
        Way::Up => (x, y + 1),
        Way::Down => (x, y - 1),
        Way::Left => (x - 1, y),
        Way::Right => (x + 1, y),
        Way::DownLeft => (x - 1, y - 1),
        Way::DownRight => (x + 1, y - 1),
    }
}

/// The exchange of the cell `(x, y)` with its neighbour in the direction
/// `way`.
pub open spec fn exchange(x: int, y: int, way: Way) -> Swap {
    Swap {
        i1: x as u32,
        j1: y as u32,
        i2: toward(x, y, way).0 as u32,
        j2: toward(x, y, way).1 as u32,
    }
}

/// The grid in the middle of a tick: its cells, and the exchanges queued so
/// far.
#[verifier::ext_equal]
pub struct Board {
    pub cells: Seq<Cell>,
    pub swaps: Seq<Swap>,
}

/// The four rolls that decide which neighbours of a burning cell catch fire.
pub struct Sparks {
    pub right: u32,
    pub left: u32,
    pub up: u32,
    pub down: u32,
}

/// What chance handed to one cell during a tick. A rule reads the draws it
/// needs and ignores the others.
pub struct Draws {
    /// What a flame or a burning cell loses of its lifetime.
    pub decay: i16,
    /// The coin of a liquid: heads is `true`.
    pub coin: bool,
    /// The roll that decides whether a gas drifts sideways.
    pub drift: u32,
    /// The roll that decides whether steam condenses or ice thaws.
    pub chance: u32,
    /// The rolls that decide whether the neighbours catch fire.
    pub sparks: Sparks,
}

impl Board {
    /// A board at the start of a tick: nothing is queued.
    pub open spec fn start(cells: Seq<Cell>) -> Board {
        Board { cells, swaps: Seq::empty() }
    }

    /// The board holds as many cells as the grid has.
    pub open spec fn wf(self) -> bool {
        self.cells.len() == CELLS
    }

    /// The cell at `(x, y)`.
    pub open spec fn at(self, x: int, y: int) -> Cell {
        cell_at(self.cells, x, y)
    }

    /// The board with `cell` at `(x, y)`.
    pub open spec fn put(self, x: int, y: int, cell: Cell) -> Board {
        Board { cells: self.cells.update(slot(x, y), cell), ..self }
    }

    /// The board with one more exchange queued.
    pub open spec fn queue(self, swap: Swap) -> Board {
        Board { swaps: self.swaps.push(swap), ..self }
    }

    /// The board after the cell `(x, y)` asked to move in the direction
    /// `way`, if it asked at all.
    pub open spec fn moved(self, x: int, y: int, way: Option<Way>) -> Board {
        match way {
            Some(w) => self.queue(exchange(x, y, w)),
            None => self,
        }
    }

    /// The way the cell `(x, y)` falls as a grain.
    pub open spec fn grain_way_at(self, x: int, y: int) -> Option<Way> {
        grain_way(
            self.at(x, y - 1).element_data.state,
            self.at(x + 1, y - 1).element_data.state,
            self.at(x + 1, y).element_data.state,
            self.at(x - 1, y - 1).element_data.state,
            self.at(x - 1, y).element_data.state,
        )
    }

    /// The way the cell `(x, y)` flows as a liquid.
    pub open spec fn liquid_way_at(self, x: int, y: int, coin: bool) -> Option<Way> {
        liquid_way(
            self.at(x, y - 1).element_data.state,
            self.at(x + 1, y - 1).element_data.state,
            self.at(x + 1, y).element_data.state,
            self.at(x - 1, y - 1).element_data.state,
            self.at(x - 1, y).element_data.state,
            coin,
        )
    }

    /// Whether the cell `(x, y)` rises as a gas: it can pass the cell above.
    pub open spec fn rises(self, x: int, y: int) -> bool {
        gas_passes(self.at(x, y).element_data.cell_type, self.at(x, y + 1).element_data)
    }

    /// The board after the cell `(x, y)` moved as a gas. If it rises, an
    /// exchange with the cell above is queued, and it drifts from there; else
    /// it drifts from where it is. The drift is an exchange of its own.
    pub open spec fn gas_moved(self, x: int, y: int, roll: u32, spread: u32) -> Board {
        let own = self.at(x, y).element_data.cell_type;
        let row = if self.rises(x, y) {
            y + 1
        } else {
            y
        };
        let risen = if self.rises(x, y) {
            self.queue(exchange(x, y, Way::Up))
        } else {
            self
        };
        risen.moved(
            x,
            row,
            gas_drift(
                own,
                self.at(x - 1, row).element_data,
                self.at(x + 1, row).element_data,
                roll,
                spread,
            ),
        )
    }

    /// The board after the cell `(x, y)` had its chance to catch fire.
    pub open spec fn lit(self, x: int, y: int, roll: u32, chance: u32, flame: i16) -> Board {
        if catches(self.at(x, y).element_data.cell_type, roll, chance) {
            self.put(x, y, Cell::fresh(ElementData::fire(flame)))
        } else {
            self
        }
    }

    /// The board after the cell `(x, y)` had its chance to set each of its
    /// four neighbours alight: the one to the right, the one to the left, the
    /// one above and the one below.
    pub open spec fn burned(self, x: int, y: int, sparks: Sparks, chance: u32, flame: i16) -> Board {
        self.lit(x + 1, y, sparks.right, chance, flame).lit(
            x - 1,
            y,
            sparks.left,
            chance,
            flame,
        ).lit(x, y + 1, sparks.up, chance, flame).lit(x, y - 1, sparks.down, chance, flame)
    }

    /// The temperature that the cell `(x, y)` takes from its neighbours.
    pub open spec fn diffused_at(self, x: int, y: int) -> i32 {
        diffused(
            self.at(x - 1, y).heat_value as int,
            self.at(x + 1, y).heat_value as int,
            self.at(x, y - 1).heat_value as int,
            self.at(x, y + 1).heat_value as int,
        ) as i32
    }

    /// The board after the cell `(x, y)` took its temperature from its
    /// neighbours.
    pub open spec fn warmed(self, x: int, y: int) -> Board {
        self.put(x, y, Cell { heat_value: self.diffused_at(x, y), ..self.at(x, y) })
    }

    /// The board after the combustible cell `(x, y)` had its tick. It
    /// ignites if it is hot enough. While it burns it loses lifetime and may
    /// set its neighbours alight. Gasoline then flows. Burnt out, the cell is
    /// air. Sawdust, or the air in its place, then falls.
    pub open spec fn fuel_ticked(self, x: int, y: int, d: Draws, fuel: Fuel) -> Board {
        let kind = self.at(x, y).element_data.cell_type;
        let lit = kindled(self.at(x, y), fuel);
        let burnt = if lit.active {
            self.put(x, y, smouldered(lit, d.decay)).burned(
                x,
                y,
                d.sparks,
                fuel.spread,
                fuel.flame,
            )
        } else {
            self.put(x, y, lit)
        };
        let flowed = if kind == CellType::Gasoline {
            burnt.moved(x, y, burnt.liquid_way_at(x, y, d.coin))
        } else {
            burnt
        };
        let done = flowed.put(x, y, spent(flowed.at(x, y)));
        if kind == CellType::SawDust {
            done.moved(x, y, done.grain_way_at(x, y))
        } else {
            done
        }
    }

    /// The board after the cell `(x, y)`, already at its new temperature,
    /// followed the rule of its material.
    pub open spec fn ruled(self, x: int, y: int, d: Draws) -> Board {
        let cell = self.at(x, y);
        match cell.element_data.cell_type {
            CellType::Air | CellType::Solid => self,
            CellType::Sand => self.moved(x, y, self.grain_way_at(x, y)),
            CellType::Water => self.moved(x, y, self.liquid_way_at(x, y, d.coin)).put(
                x,
                y,
                water_after(cell),
            ),
            CellType::Steam => self.gas_moved(x, y, d.drift, VAPOUR_SPREAD).put(
                x,
                y,
                steam_after(cell, d.chance),
            ),
            CellType::Fire | CellType::ColdFire => self.put(
                x,
                y,
                flame_after(cell, d.decay),
            ).gas_moved(x, y, d.drift, FLAME_SPREAD),
            CellType::Coal | CellType::SawDust | CellType::Gasoline => self.fuel_ticked(
                x,
                y,
                d,
                fuel_of(cell.element_data.cell_type).unwrap(),
            ),
            CellType::Methane => if methane_ignites(cell) {
                self.put(x, y, Cell::fresh(ElementData::fire(METHANE_FLAME)))
            } else {
                self.gas_moved(x, y, d.drift, VAPOUR_SPREAD)
            },
            CellType::Lava => {
                let hot = self.put(x, y, lava_after(cell));
                hot.moved(x, y, hot.liquid_way_at(x, y, d.coin)).burned(
                    x,
                    y,
                    d.sparks,
                    LAVA_SPARK,
                    LAVA_FLAME,
                )
            },
            CellType::Ice => self.put(x, y, ice_after(cell, d.chance)),
        }
    }

    /// The board after the cell `(x, y)` had its turn in a tick: it takes its
    /// temperature from its neighbours, then follows the rule of its material.
    pub open spec fn stepped(self, x: int, y: int, d: Draws) -> Board {
        self.warmed(x, y).ruled(x, y, d)
    }

    /// Whether `d` can have been drawn for the cell `(x, y)`: a roll is below
    /// [`ROLL_BOUND`], and what a flame or a burning cell loses of its
    /// lifetime lies between 1 and the most its material can lose.
    pub open spec fn admits(self, x: int, y: int, d: Draws) -> bool {
        &&& d.drift < ROLL_BOUND
        &&& d.chance < ROLL_BOUND
        &&& d.sparks.right < ROLL_BOUND
        &&& d.sparks.left < ROLL_BOUND
        &&& d.sparks.up < ROLL_BOUND
        &&& d.sparks.down < ROLL_BOUND
        &&& match self.at(x, y).element_data.cell_type {
            CellType::Fire | CellType::ColdFire => 1 <= d.decay <= FLAME_DECAY,
            CellType::Coal | CellType::SawDust | CellType::Gasoline => 1 <= d.decay <= fuel_of(
                self.at(x, y).element_data.cell_type,
            ).unwrap().max_decay,
            _ => true,
        }
    }

    /// The board after the first `k` cells of the interior had their turn.
    /// `ds[i]` is what was drawn for the cell whose turn is the `i`-th.
    pub open spec fn scanned(self, ds: Seq<Draws>, k: nat) -> Board
        decreases k,
    {
        if k == 0 {
            self
        } else {
            self.scanned(ds, (k - 1) as nat).stepped(
                turn_col((k - 1) as nat),
                turn_row((k - 1) as nat),
                ds[k - 1],
            )
        }
    }
}

/// The column of the cell whose turn is the `k`-th: a tick goes through the
/// interior column by column.
pub open spec fn turn_col(k: nat) -> int {
    1 + (k as int) / (ROWS - 2)
}

/// The row of the cell whose turn is the `k`-th: within a column a tick goes
/// upwards from row 1.
pub open spec fn turn_row(k: nat) -> int {
    1 + (k as int) % (ROWS - 2)
}

/// The cells after one exchange. An exchange that names a cell outside the
/// grid changes nothing.
pub open spec fn swapped(cells: Seq<Cell>, s: Swap) -> Seq<Cell> {
    if s.i1 < COLS && s.i2 < COLS && s.j1 < ROWS && s.j2 < ROWS {
        cells.update(slot(s.i2 as int, s.j2 as int), cells[slot(s.i1 as int, s.j1 as int)]).update(
            slot(s.i1 as int, s.j1 as int),
            cells[slot(s.i2 as int, s.j2 as int)],
        )
    } else {
        cells
    }
}

/// The cells after the exchanges were made one after the other, the first
/// queued first. Each is made on the cells as the ones before it left them.
pub open spec fn committed(cells: Seq<Cell>, swaps: Seq<Swap>) -> Seq<Cell>
    decreases swaps.len(),
{
    if swaps.len() == 0 {
        cells
    } else {
        swapped(committed(cells, swaps.drop_last()), swaps.last())
    }
}

/// Whether `ds` can have been drawn during a tick that started from `cells`:
/// it holds draws for every cell of the interior, each of them admitted by
/// the board as it was when that cell had its turn.
pub open spec fn admissible(cells: Seq<Cell>, ds: Seq<Draws>) -> bool {
    &&& ds.len() == INNER_CELLS
    &&& forall|k: nat|
        k < INNER_CELLS ==> (#[trigger] Board::start(cells).scanned(ds, k)).admits(
            turn_col(k),
            turn_row(k),
            ds[k as int],
        )
}

/// The exchanges that a tick queues, given what was drawn.
pub open spec fn tick_swaps(cells: Seq<Cell>, ds: Seq<Draws>) -> Seq<Swap> {
    Board::start(cells).scanned(ds, INNER_CELLS as nat).swaps
}

/// The cells after a tick, given what was drawn: every cell of the interior
/// has its turn, then the queued exchanges are made.
pub open spec fn tick(cells: Seq<Cell>, ds: Seq<Draws>) -> Seq<Cell> {
    committed(Board::start(cells).scanned(ds, INNER_CELLS as nat).cells, tick_swaps(cells, ds))
}

/// Two cells of the grid stand at one place in the sequence only if they are
/// one cell, and every cell of the grid has a place in it.
pub proof fn lemma_slots(x1: int, y1: int, x2: int, y2: int)
    requires
        in_grid(x1, y1),
        in_grid(x2, y2),
    ensures
        0 <= slot(x1, y1) < CELLS,
        slot(x1, y1) == slot(x2, y2) <==> x1 == x2 && y1 == y2,
{
}

/// What the first `k` turns of a tick leave behind depends on the draws of
/// those turns alone: a draw added at the end changes nothing.
pub proof fn lemma_scanned_ignores_later(b: Board, ds: Seq<Draws>, d: Draws, k: nat)
    requires
        k <= ds.len(),
    ensures
        b.scanned(ds.push(d), k) == b.scanned(ds, k),
    decreases k,
{
    if k > 0 {
        lemma_scanned_ignores_later(b, ds, d, (k - 1) as nat);
    }
}

/// Committing one more exchange is committing the others, then making that
/// exchange.
pub proof fn lemma_committed_next(cells: Seq<Cell>, swaps: Seq<Swap>, k: int)
    requires
        0 <= k < swaps.len(),
    ensures
        committed(cells, swaps.take(k + 1)) == swapped(
            committed(cells, swaps.take(k)),
            swaps[k],
        ),
{
    assert(swaps.take(k + 1).drop_last() =~= swaps.take(k));
}

} // verus!
