//! The grid: it owns the cells, runs the tick, and takes paint.

use vstd::prelude::*;
use crate::cell::{Cell, Swap};
use crate::dice::{draw_between, roll_below, seed_held};
use crate::laws::lemma_tick_keeps_border;
use crate::material::{CellType, ElementData};
use crate::model::{
    admissible, cell_at, committed, in_grid, interior, lemma_committed_next,
    lemma_scanned_ignores_later, lemma_slots, on_border, slot, swapped, tick, tick_swaps, toward,
    turn_col, turn_row, walled, Board, Draws, Sparks, CELLS, COLS, FLAME_SPREAD, INNER_CELLS,
    LAVA_FLAME, LAVA_SPARK, ROWS, VAPOUR_SPREAD,
};
use crate::picture::{
    look_col, look_row, shade, shade_at, shades, showing, tile_at, tiles, Shade, Tile,
};
use crate::rules::{
    burn_out, can_pass, cool_ice, diffuse, drift, flame_tick, flow, fuel, ice_tick, ignites,
    kindle, lava_tick, needs_coin, settle, smoulder, steam_tick, water_tick, Fuel, Way, BOILING,
    DEW_POINT, FLAME_DECAY, FREEZING, METHANE_FLAME, ROLL_BOUND,
};

verus! {

/// A grid of `COLS` by `ROWS` cells, with the generator that its ticks draw
/// from. Between two ticks no exchange is queued.
pub struct CellGrid {
    cols: u32,
    rows: u32,
    cells: Vec<Cell>,
    swaps: Vec<Swap>,
    num_of_swaps: u32,
    rng: fastrand::Rng,
}

impl View for CellGrid {
    type V = Seq<Cell>;

    /// The cells, row after row: the cell `(x, y)` stands at `slot(x, y)`.
    closed spec fn view(&self) -> Seq<Cell> {
        self.cells@
    }
}

/// `at`, moved into the range from 1 to `last`.
pub open spec fn clipped(at: int, last: int) -> int {
    if at < 1 {
        1
    } else if at > last {
        last
    } else {
        at
    }
}

/// Whether a brush of `brush_size` at `(x, y)` paints the cell `(cx, cy)`:
/// the cell lies in the square of the brush and inside the border.
pub open spec fn painted(x: i32, y: i32, brush_size: i32, cx: int, cy: int) -> bool {
    &&& interior(cx, cy)
    &&& x <= cx < x + brush_size
    &&& y <= cy < y + brush_size
}

/// The draws of a cell that drew nothing.
spec fn no_draws() -> Draws {
    Draws {
        decay: 1,
        coin: false,
        drift: 0,
        chance: 0,
        sparks: Sparks { right: 0, left: 0, up: 0, down: 0 },
    }
}

/// Every roll in `d` is one that can be rolled.
spec fn rolled(d: Draws) -> bool {
    &&& d.drift < ROLL_BOUND
    &&& d.chance < ROLL_BOUND
    &&& d.sparks.right < ROLL_BOUND
    &&& d.sparks.left < ROLL_BOUND
    &&& d.sparks.up < ROLL_BOUND
    &&& d.sparks.down < ROLL_BOUND
}

/// A vector of `CELLS` cells of air at zero degrees.
pub fn create_cells_array() -> (cells: Vec<Cell>)
    ensures
        cells@ == Seq::new(CELLS as nat, |k: int| Cell::fresh(ElementData::air())),
{
    let cells = vec![Cell::default(); CELLS];
    assert(cells@ =~= Seq::new(CELLS as nat, |k: int| Cell::fresh(ElementData::air())));
    cells
}

/// The place of the cell `(x, y)` in the vector of cells.
fn slot_of(x: usize, y: usize) -> (k: usize)
    requires
        in_grid(x as int, y as int),
    ensures
        k == slot(x as int, y as int),
        k < CELLS,
{
    y * 210 + x
}

/// The coordinates of the neighbour of `(x, y)` in the direction `way`.
fn step_toward(x: usize, y: usize, way: Way) -> (to: (usize, usize))
    requires
        in_grid(x as int, y as int),
        in_grid(toward(x as int, y as int, way).0, toward(x as int, y as int, way).1),
    ensures
        (to.0 as int, to.1 as int) == toward(x as int, y as int, way),
{
    match way {
        Way::Up => (x, y + 1),
        Way::Down => (x, y - 1),
        Way::Left => (x - 1, y),
        Way::Right => (x + 1, y),
        Way::DownLeft => (x - 1, y - 1),
        Way::DownRight => (x + 1, y - 1),
    }
}

fn clip(at: i64, last: i64) -> (to: usize)
    requires
        1 <= last <= i32::MAX,
    ensures
        to == clipped(at as int, last as int),
{
    if at < 1 {
        1
    } else if at > last {
        last as usize
    } else {
        at as usize
    }
}

impl CellGrid {
    /// The grid is as large as every grid is, and no exchange is queued.
    pub closed spec fn wf(&self) -> bool {
        &&& self.sized()
        &&& self.swaps@.len() == 0
    }

    /// The number of exchanges that the last tick made.
    pub closed spec fn swap_count(&self) -> nat {
        self.num_of_swaps as nat
    }

    /// The seed that the grid's generator holds. The draws of a tick change
    /// it.
    pub closed spec fn seed(&self) -> u64 {
        seed_held(self.rng)
    }

    spec fn sized(&self) -> bool {
        &&& self.cols == COLS
        &&& self.rows == ROWS
        &&& self.cells@.len() == CELLS
    }

    spec fn board(&self) -> Board {
        Board { cells: self.cells@, swaps: self.swaps@ }
    }

    /// A grid holds `CELLS` cells.
    pub proof fn lemma_size(&self)
        requires
            self.wf(),
        ensures
            self@.len() == CELLS,
    {
    }

    /// A grid of air at zero degrees, with a generator seeded by the thread's
    /// own.
    pub fn new() -> (grid: Self)
        ensures
            grid.wf(),
            grid.swap_count() == 0,
            grid@ == Seq::new(CELLS as nat, |k: int| Cell::fresh(ElementData::air())),
    {
        CellGrid {
            cols: COLS as u32,
            rows: ROWS as u32,
            cells: create_cells_array(),
            swaps: Vec::new(),
            num_of_swaps: 0,
            rng: fastrand::Rng::new(),
        }
    }

    /// A grid of air at zero degrees whose generator starts from `seed`.
    pub fn with_seed(seed: u64) -> (grid: Self)
        ensures
            grid.wf(),
            grid.swap_count() == 0,
            grid@ == Seq::new(CELLS as nat, |k: int| Cell::fresh(ElementData::air())),
            grid.seed() == seed,
    {
        CellGrid {
            cols: COLS as u32,
            rows: ROWS as u32,
            cells: create_cells_array(),
            swaps: Vec::new(),
            num_of_swaps: 0,
            rng: fastrand::Rng::with_seed(seed),
        }
    }

    /// Puts a cell of the solid material, at zero degrees, on every cell of
    /// the border. The other cells stay as they are.
    pub fn set_borders(&mut self)
        requires
            old(self).wf(),
        ensures
            final(self).wf(),
            final(self).swap_count() == old(self).swap_count(),
            forall|x: int, y: int|
                in_grid(x, y) ==> #[trigger] cell_at(final(self)@, x, y) == if on_border(x, y) {
                    Cell::fresh(ElementData::solid())
                } else {
                    cell_at(old(self)@, x, y)
                },
            walled(final(self)@),
    {
        let mut i: usize = 0;
        while i < COLS as usize
            invariant
                i <= COLS,
                self.wf(),
                self.num_of_swaps == old(self).num_of_swaps,
                forall|x: int, y: int|
                    in_grid(x, y) ==> #[trigger] cell_at(self@, x, y) == if x < i && (y == 0 || y
                        == ROWS - 1) {
                        Cell::fresh(ElementData::solid())
                    } else {
                        cell_at(old(self)@, x, y)
                    },
            decreases COLS - i,
        {
            self.poke(i, 0, Cell::new(ElementData::solid_element()));
            self.poke(i, (ROWS - 1) as usize, Cell::new(ElementData::solid_element()));
            i += 1;
        }
        let mut j: usize = 0;
        while j < ROWS as usize
            invariant
                j <= ROWS,
                self.wf(),
                self.num_of_swaps == old(self).num_of_swaps,
                forall|x: int, y: int|
                    in_grid(x, y) ==> #[trigger] cell_at(self@, x, y) == if y == 0 || y == ROWS
                        - 1 || (y < j && (x == 0 || x == COLS - 1)) {
                        Cell::fresh(ElementData::solid())
                    } else {
                        cell_at(old(self)@, x, y)
                    },
            decreases ROWS - j,
        {
            self.poke(0, j, Cell::new(ElementData::solid_element()));
            self.poke((COLS - 1) as usize, j, Cell::new(ElementData::solid_element()));
            j += 1;
        }
    }

    /// Advances the grid by one tick. Every cell inside the border has its
    /// turn, column by column and upwards within a column: it takes its
    /// temperature from its neighbours and follows the rule of its material,
    /// which may change the cell, set neighbours alight and queue exchanges.
    /// Then the queued exchanges are made in the order they were queued, and
    /// their number is kept for [`CellGrid::num_of_swaps`].
    ///
    /// The cells after the tick are [`tick`] of the cells before it and of
    /// what was drawn from the generator while it ran. A border that held
    /// nothing but the solid material holds nothing else afterwards.
    pub fn update(&mut self)
        requires
            old(self).wf(),
        ensures
            final(self).wf(),
            exists|ds: Seq<Draws>|
                {
                    &&& #[trigger] admissible(old(self)@, ds)
                    &&& final(self)@ == tick(old(self)@, ds)
                    &&& final(self).swap_count() == tick_swaps(old(self)@, ds).len()
                },
            walled(old(self)@) ==> walled(final(self)@),
    {
        let ghost start = self.board();
        let ghost mut ds: Seq<Draws> = Seq::empty();
        assert(start == Board::start(self@));
        // A column has 208 cells inside the border, and each of them queues
        // two exchanges at most.
        let mut i: usize = 1;
        while i < (COLS - 1) as usize
            invariant
                1 <= i <= COLS - 1,
                self.sized(),
                ds.len() == (i - 1) * 208,
                self.board() == start.scanned(ds, ds.len()),
                self.swaps@.len() <= 2 * ds.len(),
                forall|k: nat|
                    k < ds.len() ==> (#[trigger] start.scanned(ds, k)).admits(
                        turn_col(k),
                        turn_row(k),
                        ds[k as int],
                    ),
            decreases COLS - i,
        {
            let mut j: usize = 1;
            while j < (ROWS - 1) as usize
                invariant
                    1 <= i < COLS - 1,
                    1 <= j <= ROWS - 1,
                    self.sized(),
                    ds.len() == (i - 1) * 208 + (j - 1),
                    self.board() == start.scanned(ds, ds.len()),
                    self.swaps@.len() <= 2 * ds.len(),
                    forall|k: nat|
                        k < ds.len() ==> (#[trigger] start.scanned(ds, k)).admits(
                            turn_col(k),
                            turn_row(k),
                            ds[k as int],
                        ),
                decreases ROWS - j,
            {
                let d = self.step_cell(i, j);
                proof {
                    let n = ds.len();
                    let more = ds.push(d@);
                    assert(turn_col(n) == i && turn_row(n) == j);
                    assert forall|k: nat| k <= n implies start.scanned(more, k) == start.scanned(
                        ds,
                        k,
                    ) by {
                        lemma_scanned_ignores_later(start, ds, d@, k);
                    }
                    assert(start.scanned(more, n + 1) == start.scanned(more, n).stepped(
                        turn_col(n),
                        turn_row(n),
                        more[n as int],
                    ));
                    ds = more;
                }
                j += 1;
            }
            i += 1;
        }
        assert(ds.len() == INNER_CELLS);
        assert(admissible(old(self)@, ds));
        self.num_of_swaps = self.swaps.len() as u32;
        let ghost scanned = self.board();
        let count = self.swaps.len();
        let mut k: usize = 0;
        while k < count
            invariant
                k <= count,
                count == scanned.swaps.len(),
                self.sized(),
                self.swaps@ == scanned.swaps,
                self.cells@ == committed(scanned.cells, scanned.swaps.take(k as int)),
                self.num_of_swaps == count,
            decreases count - k,
        {
            let s = self.swaps[k];
            proof {
                lemma_committed_next(scanned.cells, scanned.swaps, k as int);
            }
            self.swap(s.i1, s.j1, s.i2, s.j2);
            k += 1;
        }
        assert(scanned.swaps.take(count as int) =~= scanned.swaps);
        self.swaps.clear();
        proof {
            if walled(old(self)@) {
                lemma_tick_keeps_border(old(self)@, ds);
            }
        }
    }

    /// The turn of the cell at `(i, j)` in a tick: it takes its temperature
    /// from its neighbours and follows the rule of its material. A draw is
    /// made only where the rule comes to need it. Hands back what was drawn.
    fn step_cell(&mut self, i: usize, j: usize) -> (d: Ghost<Draws>)
        requires
            old(self).sized(),
            interior(i as int, j as int),
        ensures
            final(self).sized(),
            old(self).board().admits(i as int, j as int, d@),
            final(self).board() == old(self).board().stepped(i as int, j as int, d@),
            final(self).swaps@.len() <= old(self).swaps@.len() + 2,
            final(self).num_of_swaps == old(self).num_of_swaps,
    {
        let heat = diffuse(
            self.peek(i - 1, j).heat_value,
            self.peek(i + 1, j).heat_value,
            self.peek(i, j - 1).heat_value,
            self.peek(i, j + 1).heat_value,
        );
        let mut cell = self.peek(i, j);
        cell.heat_value = heat;
        self.poke(i, j, cell);
        let ghost mut d = no_draws();
        match cell.element_data.cell_type {
            CellType::Air | CellType::Solid => {},
            CellType::Sand => {
                self.falling_sand(i, j);
            },
            CellType::Water => {
                let coin = self.liquid_movement(i, j);
                self.poke(i, j, water_tick(cell));
                proof {
                    d = Draws { coin: coin@, ..d };
                }
            },
            CellType::Steam => {
                let roll = self.gas_movement(i, j, VAPOUR_SPREAD);
                let chance = if cell.heat_value < DEW_POINT {
                    roll_below(&mut self.rng, ROLL_BOUND)
                } else {
                    0
                };
                self.poke(i, j, steam_tick(cell, chance));
                proof {
                    d = Draws { drift: roll@, chance, ..d };
                }
            },
            CellType::Fire | CellType::ColdFire => {
                let decay = draw_between(&mut self.rng, 1, FLAME_DECAY);
                self.poke(i, j, flame_tick(cell, decay));
                let roll = self.gas_movement(i, j, FLAME_SPREAD);
                proof {
                    d = Draws { decay, drift: roll@, ..d };
                }
            },
            CellType::Coal | CellType::SawDust | CellType::Gasoline => {
                let how = fuel(cell.element_data.cell_type).unwrap();
                let drawn = self.tick_fuel(i, j, &how);
                proof {
                    d = drawn@;
                }
            },
            CellType::Methane => {
                if cell.heat_value > BOILING {
                    self.poke(i, j, Cell::new(ElementData::fire_element(METHANE_FLAME)));
                } else {
                    let roll = self.gas_movement(i, j, VAPOUR_SPREAD);
                    proof {
                        d = Draws { drift: roll@, ..d };
                    }
                }
            },
            CellType::Lava => {
                self.poke(i, j, lava_tick(cell));
                let coin = self.liquid_movement(i, j);
                let sparks = self.burn(i, j, LAVA_SPARK, LAVA_FLAME);
                proof {
                    d = Draws { coin: coin@, sparks: sparks@, ..d };
                }
            },
            CellType::Ice => {
                let chance = if cool_ice(cell).heat_value > FREEZING {
                    roll_below(&mut self.rng, ROLL_BOUND)
                } else {
                    0
                };
                self.poke(i, j, ice_tick(cell, chance));
                proof {
                    d = Draws { chance, ..d };
                }
            },
        }
        Ghost(d)
    }

    /// The rule of the combustible cell at `(i, j)`, which burns as `fuel`
    /// says. Hands back what was drawn.
    fn tick_fuel(&mut self, i: usize, j: usize, fuel: &Fuel) -> (d: Ghost<Draws>)
        requires
            old(self).sized(),
            interior(i as int, j as int),
            1 <= fuel.max_decay,
        ensures
            final(self).sized(),
            1 <= d@.decay <= fuel.max_decay,
            rolled(d@),
            final(self).board() == old(self).board().fuel_ticked(i as int, j as int, d@, *fuel),
            final(self).swaps@.len() <= old(self).swaps@.len() + 1,
            final(self).num_of_swaps == old(self).num_of_swaps,
    {
        let ghost mut d = no_draws();
        let kind = self.peek(i, j).element_data.cell_type;
        let mut cell = kindle(self.peek(i, j), fuel);
        if cell.active {
            let decay = draw_between(&mut self.rng, 1, fuel.max_decay);
            cell = smoulder(cell, decay);
            self.poke(i, j, cell);
            let sparks = self.burn(i, j, fuel.spread, fuel.flame);
            proof {
                d = Draws { decay, sparks: sparks@, ..d };
            }
        } else {
            self.poke(i, j, cell);
        }
        if kind == CellType::Gasoline {
            let coin = self.liquid_movement(i, j);
            proof {
                d = Draws { coin: coin@, ..d };
            }
        }
        self.poke(i, j, burn_out(cell));
        if kind == CellType::SawDust {
            self.falling_sand(i, j);
        }
        Ghost(d)
    }

    /// Exchanges the cells at `(i1, j1)` and `(i2, j2)`, or does nothing if
    /// either lies outside the grid.
    fn swap(&mut self, i1: u32, j1: u32, i2: u32, j2: u32)
        requires
            old(self).sized(),
        ensures
            final(self).sized(),
            final(self).cells@ == swapped(old(self).cells@, Swap { i1, j1, i2, j2 }),
            final(self).swaps@ == old(self).swaps@,
            final(self).num_of_swaps == old(self).num_of_swaps,
    {
        if i1 < self.cols && i2 < self.cols && j1 < self.rows && j2 < self.rows {
            let first = slot_of(i1 as usize, j1 as usize);
            let second = slot_of(i2 as usize, j2 as usize);
            let temp = self.cells[second];
            self.cells[second] = self.cells[first];
            self.cells[first] = temp;
        }
    }

    /// Queues the move of the grain at `(i, j)`, and says whether there is one.
    fn falling_sand(&mut self, i: usize, j: usize) -> (moved: bool)
        requires
            old(self).sized(),
            interior(i as int, j as int),
        ensures
            final(self).sized(),
            final(self).board() == old(self).board().moved(
                i as int,
                j as int,
                old(self).board().grain_way_at(i as int, j as int),
            ),
            moved == old(self).board().grain_way_at(i as int, j as int).is_some(),
            final(self).num_of_swaps == old(self).num_of_swaps,
    {
        let way = settle(
            self.peek(i, j - 1).element_data.state,
            self.peek(i + 1, j - 1).element_data.state,
            self.peek(i + 1, j).element_data.state,
            self.peek(i - 1, j - 1).element_data.state,
            self.peek(i - 1, j).element_data.state,
        );
        self.enqueue(i, j, way);
        way.is_some()
    }

    /// Queues the move of the liquid at `(i, j)`, flipping a coin where the
    /// liquid cannot move straight down. Hands back the coin.
    fn liquid_movement(&mut self, i: usize, j: usize) -> (coin: Ghost<bool>)
        requires
            old(self).sized(),
            interior(i as int, j as int),
        ensures
            final(self).sized(),
            final(self).board() == old(self).board().moved(
                i as int,
                j as int,
                old(self).board().liquid_way_at(i as int, j as int, coin@),
            ),
            final(self).num_of_swaps == old(self).num_of_swaps,
    {
        let below = self.peek(i, j - 1).element_data.state;
        let coin = if needs_coin(below) {
            self.rng.bool()
        } else {
            false
        };
        let way = flow(
            below,
            self.peek(i + 1, j - 1).element_data.state,
            self.peek(i + 1, j).element_data.state,
            self.peek(i - 1, j - 1).element_data.state,
            self.peek(i - 1, j).element_data.state,
            coin,
        );
        self.enqueue(i, j, way);
        Ghost(coin)
    }

    /// Queues the moves of the gas at `(i, j)`: upwards if it can pass the
    /// cell above, and sideways from where it then is, on a roll. Hands back
    /// the roll.
    fn gas_movement(&mut self, i: usize, j: usize, spread: u32) -> (roll: Ghost<u32>)
        requires
            old(self).sized(),
            interior(i as int, j as int),
        ensures
            final(self).sized(),
            roll@ < ROLL_BOUND,
            final(self).board() == old(self).board().gas_moved(i as int, j as int, roll@, spread),
            final(self).num_of_swaps == old(self).num_of_swaps,
    {
        let own = self.peek(i, j).element_data.cell_type;
        let above = self.peek(i, j + 1).element_data;
        let mut row = j;
        if can_pass(own, &above) {
            self.enqueue(i, j, Some(Way::Up));
            row = j + 1;
        }
        let roll = roll_below(&mut self.rng, ROLL_BOUND);
        let left = self.peek(i - 1, row).element_data;
        let right = self.peek(i + 1, row).element_data;
        self.enqueue(i, row, drift(own, &left, &right, roll, spread));
        Ghost(roll)
    }

    /// Gives each of the four neighbours of `(i, j)` its chance to catch
    /// fire. Hands back the rolls.
    fn burn(&mut self, i: usize, j: usize, chance: u32, flame: i16) -> (sparks: Ghost<Sparks>)
        requires
            old(self).sized(),
            interior(i as int, j as int),
        ensures
            final(self).sized(),
            sparks@.right < ROLL_BOUND,
            sparks@.left < ROLL_BOUND,
            sparks@.up < ROLL_BOUND,
            sparks@.down < ROLL_BOUND,
            final(self).board() == old(self).board().burned(
                i as int,
                j as int,
                sparks@,
                chance,
                flame,
            ),
            final(self).num_of_swaps == old(self).num_of_swaps,
    {
        let right = self.light(i + 1, j, chance, flame);
        let left = self.light(i - 1, j, chance, flame);
        let up = self.light(i, j + 1, chance, flame);
        let down = self.light(i, j - 1, chance, flame);
        Ghost(Sparks { right: right@, left: left@, up: up@, down: down@ })
    }

    /// Gives the cell `(x, y)` its chance to catch fire: a cell of air gets
    /// a roll. Hands back the roll.
    fn light(&mut self, x: usize, y: usize, chance: u32, flame: i16) -> (roll: Ghost<u32>)
        requires
            old(self).sized(),
            in_grid(x as int, y as int),
        ensures
            final(self).sized(),
            roll@ < ROLL_BOUND,
            final(self).board() == old(self).board().lit(x as int, y as int, roll@, chance, flame),
            final(self).num_of_swaps == old(self).num_of_swaps,
    {
        let kind = self.peek(x, y).element_data.cell_type;
        if kind == CellType::Air {
            let roll = roll_below(&mut self.rng, ROLL_BOUND);
            if ignites(kind, roll, chance) {
                self.poke(x, y, Cell::new(ElementData::fire_element(flame)));
            }
            Ghost(roll)
        } else {
            Ghost(0)
        }
    }

    /// Paints a square of `brush_size` by `brush_size` copies of `cell`. The
    /// square starts at `(x, y)` and extends to the right and upwards. Only
    /// cells inside the border take the paint; the rest of the square is
    /// dropped, and so is a square of no size.
    pub fn modify_cell(&mut self, x: i32, y: i32, cell: Cell, brush_size: i32)
        requires
            old(self).wf(),
        ensures
            final(self).wf(),
            final(self).swap_count() == old(self).swap_count(),
            forall|cx: int, cy: int|
                in_grid(cx, cy) ==> #[trigger] cell_at(final(self)@, cx, cy) == if painted(
                    x,
                    y,
                    brush_size,
                    cx,
                    cy,
                ) {
                    cell
                } else {
                    cell_at(old(self)@, cx, cy)
                },
            forall|cx: int, cy: int|
                on_border(cx, cy) ==> #[trigger] cell_at(final(self)@, cx, cy) == cell_at(
                    old(self)@,
                    cx,
                    cy,
                ),
            walled(old(self)@) ==> walled(final(self)@),
    {
        let left = clip(x as i64, COLS as i64 - 1);
        let right = clip(x as i64 + brush_size as i64, COLS as i64 - 1);
        let bottom = clip(y as i64, ROWS as i64 - 1);
        let top = clip(y as i64 + brush_size as i64, ROWS as i64 - 1);
        let mut i = left;
        while i < right
            invariant
                1 <= left <= i,
                i <= right || right < left,
                right <= COLS - 1,
                1 <= bottom <= ROWS - 1,
                1 <= top <= ROWS - 1,
                left == clipped(x as int, COLS - 1),
                right == clipped(x + brush_size, COLS - 1),
                bottom == clipped(y as int, ROWS - 1),
                top == clipped(y + brush_size, ROWS - 1),
                self.wf(),
                self.num_of_swaps == old(self).num_of_swaps,
                forall|cx: int, cy: int|
                    in_grid(cx, cy) ==> #[trigger] cell_at(self@, cx, cy) == if cx < i && painted(
                        x,
                        y,
                        brush_size,
                        cx,
                        cy,
                    ) {
                        cell
                    } else {
                        cell_at(old(self)@, cx, cy)
                    },
            decreases right - i,
        {
            let mut j = bottom;
            while j < top
                invariant
                    1 <= left <= i < right <= COLS - 1,
                    1 <= bottom <= j,
                    j <= top || top < bottom,
                    top <= ROWS - 1,
                    left == clipped(x as int, COLS - 1),
                    right == clipped(x + brush_size, COLS - 1),
                    bottom == clipped(y as int, ROWS - 1),
                    top == clipped(y + brush_size, ROWS - 1),
                    self.wf(),
                    self.num_of_swaps == old(self).num_of_swaps,
                    forall|cx: int, cy: int|
                        in_grid(cx, cy) ==> #[trigger] cell_at(self@, cx, cy) == if (cx < i || (cx
                            == i && cy < j)) && painted(x, y, brush_size, cx, cy) {
                            cell
                        } else {
                            cell_at(old(self)@, cx, cy)
                        },
                decreases top - j,
            {
                self.poke(i, j, cell);
                j += 1;
            }
            i += 1;
        }
    }

    /// The number of exchanges that the last tick made.
    pub fn num_of_swaps(&self) -> (count: &u32)
        ensures
            *count == self.swap_count(),
    {
        &self.num_of_swaps
    }

    /// The material at `(i, j)`, or `None` where that is no cell of the grid.
    pub fn get_element_on_mouse(&self, i: i32, j: i32) -> (kind: Option<CellType>)
        requires
            self.wf(),
        ensures
            kind == if in_grid(i as int, j as int) {
                Some(cell_at(self@, i as int, j as int).element_data.cell_type)
            } else {
                None
            },
    {
        if i >= 0 && i < self.cols as i32 && j >= 0 && j < self.rows as i32 {
            return Some(self.peek(i as usize, j as usize).element_data.cell_type);
        }
        None
    }

    /// The cell at `(i, j)`, or `None` where that is no cell of the grid.
    pub fn get_cell(&self, i: i32, j: i32) -> (cell: Option<Cell>)
        requires
            self.wf(),
        ensures
            cell == if in_grid(i as int, j as int) {
                Some(cell_at(self@, i as int, j as int))
            } else {
                None
            },
    {
        if i >= 0 && i < self.cols as i32 && j >= 0 && j < self.rows as i32 {
            return Some(self.peek(i as usize, j as usize));
        }
        None
    }

    /// The cells that show, with their colours, for a renderer to draw:
    /// every cell whose colour is not fully transparent, column by column
    /// and upwards within a column.
    pub fn render(&self) -> (out: Vec<Tile>)
        requires
            self.wf(),
        ensures
            out@ == showing(tiles(self@)),
    {
        let ghost all = tiles(self@);
        let mut out: Vec<Tile> = Vec::new();
        assert(all.take(0) =~= Seq::<Tile>::empty());
        assert(showing(all.take(0)) == Seq::<Tile>::empty()) by {
            reveal(Seq::filter);
        }
        let mut i: usize = 0;
        while i < COLS as usize
            invariant
                i <= COLS,
                self.wf(),
                all == tiles(self@),
                out@ == showing(all.take(i * 210)),
            decreases COLS - i,
        {
            let mut j: usize = 0;
            while j < ROWS as usize
                invariant
                    i < COLS,
                    j <= ROWS,
                    self.wf(),
                    all == tiles(self@),
                    out@ == showing(all.take(i * 210 + j)),
                decreases ROWS - j,
            {
                let color = self.peek(i, j).element_data.color;
                proof {
                    let k = i * 210 + j;
                    assert(look_col(k) == i && look_row(k) == j);
                    assert(all.take(k + 1).drop_last() =~= all.take(k));
                    assert(all.take(k + 1).last() == tile_at(self@, k));
                    reveal(Seq::filter);
                }
                if color.3 != 0 {
                    out.push(Tile { x: i as u32, y: j as u32, color });
                }
                j += 1;
            }
            i += 1;
        }
        assert(all.take(CELLS as int) =~= all);
        out
    }

    /// The heat map, for a renderer to draw: every cell with the colour of
    /// its temperature, column by column and upwards within a column.
    pub fn render_heatmap(&self) -> (out: Vec<Shade>)
        requires
            self.wf(),
        ensures
            out@ == shades(self@),
    {
        let mut out: Vec<Shade> = Vec::new();
        let mut i: usize = 0;
        while i < COLS as usize
            invariant
                i <= COLS,
                self.wf(),
                out@ == shades(self@).take(i * 210),
            decreases COLS - i,
        {
            let mut j: usize = 0;
            while j < ROWS as usize
                invariant
                    i < COLS,
                    j <= ROWS,
                    self.wf(),
                    out@ == shades(self@).take(i * 210 + j),
                decreases ROWS - j,
            {
                let heat = self.peek(i, j).heat_value;
                proof {
                    let k = i * 210 + j;
                    assert(look_col(k) == i && look_row(k) == j);
                    assert(shades(self@).take(k + 1) =~= shades(self@).take(k).push(
                        shade_at(self@, k),
                    ));
                }
                out.push(shade(i as u32, j as u32, heat));
                j += 1;
            }
            i += 1;
        }
        assert(shades(self@).take(CELLS as int) =~= shades(self@));
        out
    }

    fn peek(&self, x: usize, y: usize) -> (cell: Cell)
        requires
            self.sized(),
            in_grid(x as int, y as int),
        ensures
            cell == self.board().at(x as int, y as int),
    {
        self.cells[slot_of(x, y)]
    }

    fn poke(&mut self, x: usize, y: usize, cell: Cell)
        requires
            old(self).sized(),
            in_grid(x as int, y as int),
        ensures
            final(self).sized(),
            final(self).board() == old(self).board().put(x as int, y as int, cell),
            final(self).num_of_swaps == old(self).num_of_swaps,
            forall|cx: int, cy: int|
                in_grid(cx, cy) ==> #[trigger] cell_at(final(self)@, cx, cy) == if cx == x && cy
                    == y {
                    cell
                } else {
                    cell_at(old(self)@, cx, cy)
                },
    {
        let k = slot_of(x, y);
        self.cells[k] = cell;
        proof {
            assert forall|cx: int, cy: int| in_grid(cx, cy) implies #[trigger] cell_at(
                self@,
                cx,
                cy,
            ) == if cx == x && cy == y {
                cell
            } else {
                cell_at(old(self)@, cx, cy)
            } by {
                lemma_slots(cx, cy, x as int, y as int);
            }
        }
    }

    /// Queues the exchange of the cell `(x, y)` with its neighbour in the
    /// direction `way`, if there is a way.
    fn enqueue(&mut self, x: usize, y: usize, way: Option<Way>)
        requires
            old(self).sized(),
            in_grid(x as int, y as int),
            way matches Some(w) ==> in_grid(
                toward(x as int, y as int, w).0,
                toward(x as int, y as int, w).1,
            ),
        ensures
            final(self).sized(),
            final(self).board() == old(self).board().moved(x as int, y as int, way),
            final(self).num_of_swaps == old(self).num_of_swaps,
    {
        if let Some(w) = way {
            let to = step_toward(x, y, w);
            self.swaps.push(Swap::new_usize(x, y, to.0, to.1));
        }
    }
}

} // verus!
