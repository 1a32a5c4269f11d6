//! What holds of every tick, whatever is drawn.

use vstd::prelude::*;
use crate::cell::{Cell, Swap};
use crate::material::{CellType, ElementData, State};
use crate::model::{
    cell_at, committed, exchange, in_grid, interior, lemma_slots, on_border, swapped, tick,
    tick_swaps, toward, turn_col, turn_row, walled, Board, Draws, Sparks, CELLS, COLS,
    FLAME_SPREAD, INNER_CELLS, LAVA_FLAME, LAVA_SPARK, ROWS, VAPOUR_SPREAD,
};
use crate::rules::{
    flame_after, fuel_of, gas_drift, ice_after, kindled, lava_after, smouldered, spent,
    steam_after, water_after, Fuel, Way, BOILING, FLAME_DECAY, FREEZING, METHANE_FLAME,
};

verus! {

/// An exchange of two cells inside the border.
spec fn inner(s: Swap) -> bool {
    interior(s.i1 as int, s.j1 as int) && interior(s.i2 as int, s.j2 as int)
}

/// A board whose border stands and will stand: the border holds nothing but
/// the solid material, and no queued exchange touches it.
spec fn fenced(b: Board) -> bool {
    &&& b.wf()
    &&& walled(b.cells)
    &&& forall|k: int| 0 <= k < b.swaps.len() ==> inner(#[trigger] b.swaps[k])
}

/// The cells after one tick for each member of `rounds`, which holds what
/// was drawn in each of them.
pub open spec fn ticks(cells: Seq<Cell>, rounds: Seq<Seq<Draws>>) -> Seq<Cell>
    decreases rounds.len(),
{
    if rounds.len() == 0 {
        cells
    } else {
        tick(ticks(cells, rounds.drop_last()), rounds.last())
    }
}

/// A cell put on a board changes that cell and no other.
pub proof fn lemma_put(b: Board, x: int, y: int, cell: Cell)
    requires
        b.wf(),
        in_grid(x, y),
    ensures
        b.put(x, y, cell).wf(),
        b.put(x, y, cell).swaps == b.swaps,
        forall|cx: int, cy: int|
            in_grid(cx, cy) ==> #[trigger] b.put(x, y, cell).at(cx, cy) == if cx == x && cy == y {
                cell
            } else {
                b.at(cx, cy)
            },
{
    assert forall|cx: int, cy: int| in_grid(cx, cy) implies #[trigger] b.put(x, y, cell).at(cx, cy)
        == if cx == x && cy == y {
        cell
    } else {
        b.at(cx, cy)
    } by {
        lemma_slots(cx, cy, x, y);
    }
}

proof fn lemma_put_fenced(b: Board, x: int, y: int, cell: Cell)
    requires
        fenced(b),
        interior(x, y),
    ensures
        fenced(b.put(x, y, cell)),
{
    lemma_put(b, x, y, cell);
    let after = b.put(x, y, cell);
    assert forall|cx: int, cy: int| on_border(cx, cy) implies (#[trigger] cell_at(
        after.cells,
        cx,
        cy,
    )).element_data == ElementData::solid() by {
        assert(after.at(cx, cy) == b.at(cx, cy));
    }
}

/// On a walled board, a cell that is not solid by phase lies off the border.
proof fn lemma_soft_is_inner(b: Board, x: int, y: int)
    requires
        walled(b.cells),
        in_grid(x, y),
        b.at(x, y).element_data.state != State::Solid || b.at(x, y).element_data.cell_type
            != CellType::Solid,
    ensures
        interior(x, y),
{
}

proof fn lemma_queue_fenced(b: Board, s: Swap)
    requires
        fenced(b),
        inner(s),
    ensures
        fenced(b.queue(s)),
{
}

proof fn lemma_grain_fenced(b: Board, x: int, y: int)
    requires
        fenced(b),
        interior(x, y),
    ensures
        fenced(b.moved(x, y, b.grain_way_at(x, y))),
{
    match b.grain_way_at(x, y) {
        Some(way) => {
            let to = toward(x, y, way);
            lemma_soft_is_inner(b, to.0, to.1);
            lemma_queue_fenced(b, exchange(x, y, way));
        },
        None => {},
    }
}

proof fn lemma_liquid_fenced(b: Board, x: int, y: int, coin: bool)
    requires
        fenced(b),
        interior(x, y),
    ensures
        fenced(b.moved(x, y, b.liquid_way_at(x, y, coin))),
{
    match b.liquid_way_at(x, y, coin) {
        Some(way) => {
            let to = toward(x, y, way);
            lemma_soft_is_inner(b, to.0, to.1);
            lemma_queue_fenced(b, exchange(x, y, way));
        },
        None => {},
    }
}

proof fn lemma_gas_fenced(b: Board, x: int, y: int, roll: u32, spread: u32)
    requires
        fenced(b),
        interior(x, y),
    ensures
        fenced(b.gas_moved(x, y, roll, spread)),
{
    let row = if b.rises(x, y) {
        y + 1
    } else {
        y
    };
    let risen = if b.rises(x, y) {
        b.queue(exchange(x, y, Way::Up))
    } else {
        b
    };
    if b.rises(x, y) {
        lemma_soft_is_inner(b, x, y + 1);
        lemma_queue_fenced(b, exchange(x, y, Way::Up));
    }
    assert(fenced(risen));
    assert(interior(x, row));
    let way = gas_drift(
        b.at(x, y).element_data.cell_type,
        b.at(x - 1, row).element_data,
        b.at(x + 1, row).element_data,
        roll,
        spread,
    );
    match way {
        Some(w) => {
            let to = toward(x, row, w);
            lemma_soft_is_inner(b, to.0, to.1);
            lemma_queue_fenced(risen, exchange(x, row, w));
        },
        None => {},
    }
}

proof fn lemma_lit_fenced(b: Board, x: int, y: int, roll: u32, chance: u32, flame: i16)
    requires
        fenced(b),
        in_grid(x, y),
    ensures
        fenced(b.lit(x, y, roll, chance, flame)),
{
    if b.lit(x, y, roll, chance, flame) != b {
        lemma_soft_is_inner(b, x, y);
        lemma_put_fenced(b, x, y, Cell::fresh(ElementData::fire(flame)));
    }
}

proof fn lemma_burned_fenced(b: Board, x: int, y: int, sparks: Sparks, chance: u32, flame: i16)
    requires
        fenced(b),
        interior(x, y),
    ensures
        fenced(b.burned(x, y, sparks, chance, flame)),
{
    let b1 = b.lit(x + 1, y, sparks.right, chance, flame);
    lemma_lit_fenced(b, x + 1, y, sparks.right, chance, flame);
    let b2 = b1.lit(x - 1, y, sparks.left, chance, flame);
    lemma_lit_fenced(b1, x - 1, y, sparks.left, chance, flame);
    let b3 = b2.lit(x, y + 1, sparks.up, chance, flame);
    lemma_lit_fenced(b2, x, y + 1, sparks.up, chance, flame);
    lemma_lit_fenced(b3, x, y - 1, sparks.down, chance, flame);
}

proof fn lemma_fuel_fenced(b: Board, x: int, y: int, d: Draws, fuel: Fuel)
    requires
        fenced(b),
        interior(x, y),
    ensures
        fenced(b.fuel_ticked(x, y, d, fuel)),
{
    let kind = b.at(x, y).element_data.cell_type;
    let lit = kindled(b.at(x, y), fuel);
    let burnt = if lit.active {
        b.put(x, y, smouldered(lit, d.decay)).burned(x, y, d.sparks, fuel.spread, fuel.flame)
    } else {
        b.put(x, y, lit)
    };
    if lit.active {
        lemma_put_fenced(b, x, y, smouldered(lit, d.decay));
        lemma_burned_fenced(
            b.put(x, y, smouldered(lit, d.decay)),
            x,
            y,
            d.sparks,
            fuel.spread,
            fuel.flame,
        );
    } else {
        lemma_put_fenced(b, x, y, lit);
    }
    let flowed = if kind == CellType::Gasoline {
        burnt.moved(x, y, burnt.liquid_way_at(x, y, d.coin))
    } else {
        burnt
    };
    lemma_liquid_fenced(burnt, x, y, d.coin);
    let done = flowed.put(x, y, spent(flowed.at(x, y)));
    lemma_put_fenced(flowed, x, y, spent(flowed.at(x, y)));
    lemma_grain_fenced(done, x, y);
}

proof fn lemma_ruled_fenced(b: Board, x: int, y: int, d: Draws)
    requires
        fenced(b),
        interior(x, y),
    ensures
        fenced(b.ruled(x, y, d)),
{
    let cell = b.at(x, y);
    match cell.element_data.cell_type {
        CellType::Air | CellType::Solid => {},
        CellType::Sand => {
            lemma_grain_fenced(b, x, y);
        },
        CellType::Water => {
            lemma_liquid_fenced(b, x, y, d.coin);
            lemma_put_fenced(b.moved(x, y, b.liquid_way_at(x, y, d.coin)), x, y, water_after(cell));
        },
        CellType::Steam => {
            lemma_gas_fenced(b, x, y, d.drift, VAPOUR_SPREAD);
            lemma_put_fenced(
                b.gas_moved(x, y, d.drift, VAPOUR_SPREAD),
                x,
                y,
                steam_after(cell, d.chance),
            );
        },
        CellType::Fire | CellType::ColdFire => {
            lemma_put_fenced(b, x, y, flame_after(cell, d.decay));
            lemma_gas_fenced(b.put(x, y, flame_after(cell, d.decay)), x, y, d.drift, FLAME_SPREAD);
        },
        CellType::Coal | CellType::SawDust | CellType::Gasoline => {
            lemma_fuel_fenced(b, x, y, d, fuel_of(cell.element_data.cell_type).unwrap());
        },
        CellType::Methane => {
            lemma_put_fenced(b, x, y, Cell::fresh(ElementData::fire(METHANE_FLAME)));
            lemma_gas_fenced(b, x, y, d.drift, VAPOUR_SPREAD);
        },
        CellType::Lava => {
            let hot = b.put(x, y, lava_after(cell));
            lemma_put_fenced(b, x, y, lava_after(cell));
            lemma_liquid_fenced(hot, x, y, d.coin);
            lemma_burned_fenced(
                hot.moved(x, y, hot.liquid_way_at(x, y, d.coin)),
                x,
                y,
                d.sparks,
                LAVA_SPARK,
                LAVA_FLAME,
            );
        },
        CellType::Ice => {
            lemma_put_fenced(b, x, y, ice_after(cell, d.chance));
        },
    }
}

proof fn lemma_stepped_fenced(b: Board, x: int, y: int, d: Draws)
    requires
        fenced(b),
        interior(x, y),
    ensures
        fenced(b.stepped(x, y, d)),
{
    lemma_put_fenced(b, x, y, Cell { heat_value: b.diffused_at(x, y), ..b.at(x, y) });
    lemma_ruled_fenced(b.warmed(x, y), x, y, d);
}

proof fn lemma_scanned_fenced(b: Board, ds: Seq<Draws>, k: nat)
    requires
        fenced(b),
        k <= INNER_CELLS,
    ensures
        fenced(b.scanned(ds, k)),
    decreases k,
{
    if k > 0 {
        let before = (k - 1) as nat;
        lemma_scanned_fenced(b, ds, before);
        lemma_stepped_fenced(b.scanned(ds, before), turn_col(before), turn_row(before), ds[k - 1]);
    }
}

proof fn lemma_swapped_walled(cells: Seq<Cell>, s: Swap)
    requires
        cells.len() == CELLS,
        walled(cells),
        inner(s),
    ensures
        swapped(cells, s).len() == CELLS,
        walled(swapped(cells, s)),
{
    let after = swapped(cells, s);
    assert forall|x: int, y: int| on_border(x, y) implies (#[trigger] cell_at(
        after,
        x,
        y,
    )).element_data == ElementData::solid() by {
        lemma_slots(x, y, s.i1 as int, s.j1 as int);
        lemma_slots(x, y, s.i2 as int, s.j2 as int);
        assert(cell_at(after, x, y) == cell_at(cells, x, y));
    }
}

proof fn lemma_committed_walled(cells: Seq<Cell>, swaps: Seq<Swap>)
    requires
        cells.len() == CELLS,
        walled(cells),
        forall|k: int| 0 <= k < swaps.len() ==> inner(#[trigger] swaps[k]),
    ensures
        committed(cells, swaps).len() == CELLS,
        walled(committed(cells, swaps)),
    decreases swaps.len(),
{
    if swaps.len() > 0 {
        lemma_committed_walled(cells, swaps.drop_last());
        lemma_swapped_walled(committed(cells, swaps.drop_last()), swaps.last());
    }
}

/// A tick leaves the grid its size, whatever is drawn.
pub proof fn lemma_tick_keeps_size(cells: Seq<Cell>, ds: Seq<Draws>)
    requires
        cells.len() == CELLS,
    ensures
        tick(cells, ds).len() == CELLS,
{
    let scanned = Board::start(cells).scanned(ds, INNER_CELLS as nat);
    lemma_scanned_sized(Board::start(cells), ds, INNER_CELLS as nat);
    lemma_committed_sized(scanned.cells, scanned.swaps);
}

proof fn lemma_stepped_sized(b: Board, x: int, y: int, d: Draws)
    requires
        b.wf(),
        interior(x, y),
    ensures
        b.stepped(x, y, d).wf(),
{
    lemma_slots(x, y, x, y);
    lemma_slots(x + 1, y, x, y);
    lemma_slots(x - 1, y, x, y);
    lemma_slots(x, y + 1, x, y);
    lemma_slots(x, y - 1, x, y);
}

proof fn lemma_scanned_sized(b: Board, ds: Seq<Draws>, k: nat)
    requires
        b.wf(),
        k <= INNER_CELLS,
    ensures
        b.scanned(ds, k).wf(),
    decreases k,
{
    if k > 0 {
        let before = (k - 1) as nat;
        lemma_scanned_sized(b, ds, before);
        lemma_stepped_sized(b.scanned(ds, before), turn_col(before), turn_row(before), ds[k - 1]);
    }
}

proof fn lemma_committed_sized(cells: Seq<Cell>, swaps: Seq<Swap>)
    requires
        cells.len() == CELLS,
    ensures
        committed(cells, swaps).len() == CELLS,
    decreases swaps.len(),
{
    if swaps.len() > 0 {
        lemma_committed_sized(cells, swaps.drop_last());
        let s = swaps.last();
        if s.i1 < COLS && s.i2 < COLS && s.j1 < ROWS && s.j2 < ROWS {
            lemma_slots(s.i1 as int, s.j1 as int, s.i2 as int, s.j2 as int);
            lemma_slots(s.i2 as int, s.j2 as int, s.i1 as int, s.j1 as int);
        }
    }
}

/// A border that holds nothing but the solid material holds nothing else
/// after a tick, whatever is drawn.
pub proof fn lemma_tick_keeps_border(cells: Seq<Cell>, ds: Seq<Draws>)
    requires
        cells.len() == CELLS,
        walled(cells),
    ensures
        tick(cells, ds).len() == CELLS,
        walled(tick(cells, ds)),
{
    let scanned = Board::start(cells).scanned(ds, INNER_CELLS as nat);
    lemma_scanned_fenced(Board::start(cells), ds, INNER_CELLS as nat);
    lemma_committed_walled(scanned.cells, scanned.swaps);
}

/// A border that holds nothing but the solid material holds nothing else
/// after any number of ticks, whatever is drawn in them.
pub proof fn lemma_border_stands(cells: Seq<Cell>, rounds: Seq<Seq<Draws>>)
    requires
        cells.len() == CELLS,
        walled(cells),
    ensures
        ticks(cells, rounds).len() == CELLS,
        walled(ticks(cells, rounds)),
    decreases rounds.len(),
{
    if rounds.len() > 0 {
        lemma_border_stands(cells, rounds.drop_last());
        lemma_tick_keeps_border(ticks(cells, rounds.drop_last()), rounds.last());
    }
}

/// Water that is below the freezing point, once it took its temperature from
/// its neighbours, is ice after its turn.
pub proof fn lemma_water_freezes(b: Board, x: int, y: int, d: Draws)
    requires
        b.wf(),
        interior(x, y),
        b.at(x, y).element_data.cell_type == CellType::Water,
        b.diffused_at(x, y) < FREEZING,
    ensures
        b.stepped(x, y, d).at(x, y).element_data == ElementData::ice(),
        b.stepped(x, y, d).at(x, y).heat_value == b.diffused_at(x, y),
{
    lemma_turn_of_water(b, x, y, d);
}

/// Water that is above the boiling point, once it took its temperature from
/// its neighbours, is steam after its turn.
pub proof fn lemma_water_boils(b: Board, x: int, y: int, d: Draws)
    requires
        b.wf(),
        interior(x, y),
        b.at(x, y).element_data.cell_type == CellType::Water,
        b.diffused_at(x, y) > BOILING,
    ensures
        b.stepped(x, y, d).at(x, y).element_data == ElementData::steam(),
        b.stepped(x, y, d).at(x, y).heat_value == b.diffused_at(x, y),
{
    lemma_turn_of_water(b, x, y, d);
}

/// Water between the freezing and the boiling point, once it took its
/// temperature from its neighbours, is after its turn what it was.
pub proof fn lemma_water_stays(b: Board, x: int, y: int, d: Draws)
    requires
        b.wf(),
        interior(x, y),
        b.at(x, y).element_data.cell_type == CellType::Water,
        FREEZING <= b.diffused_at(x, y) <= BOILING,
    ensures
        b.stepped(x, y, d).at(x, y).element_data == b.at(x, y).element_data,
        b.stepped(x, y, d).at(x, y).heat_value == b.diffused_at(x, y),
{
    lemma_turn_of_water(b, x, y, d);
}

proof fn lemma_turn_of_water(b: Board, x: int, y: int, d: Draws)
    requires
        b.wf(),
        interior(x, y),
        b.at(x, y).element_data.cell_type == CellType::Water,
    ensures
        b.stepped(x, y, d).at(x, y) == water_after(
            Cell { heat_value: b.diffused_at(x, y), ..b.at(x, y) },
        ),
{
    let warm = Cell { heat_value: b.diffused_at(x, y), ..b.at(x, y) };
    lemma_put(b, x, y, warm);
    let flowed = b.warmed(x, y).moved(x, y, b.warmed(x, y).liquid_way_at(x, y, d.coin));
    lemma_put(flowed, x, y, water_after(warm));
}

/// A flame, hot or cold, loses in its turn what was drawn for it, between 1
/// and `FLAME_DECAY`, of its lifetime. If that leaves it a lifetime of zero
/// or more, it is the flame it was, with that lifetime; if not, it is air.
/// Either way it is at the temperature that the flame gives off.
pub proof fn lemma_flame_decays(b: Board, x: int, y: int, d: Draws)
    requires
        b.wf(),
        interior(x, y),
        b.at(x, y).element_data.cell_type == CellType::Fire || b.at(x, y).element_data.cell_type
            == CellType::ColdFire,
        b.admits(x, y, d),
    ensures
        1 <= d.decay <= FLAME_DECAY,
        b.at(x, y).element_data.lifetime - d.decay >= 0 ==> b.stepped(x, y, d).at(
            x,
            y,
        ).element_data == (ElementData {
            lifetime: (b.at(x, y).element_data.lifetime - d.decay) as i16,
            ..b.at(x, y).element_data
        }),
        b.at(x, y).element_data.lifetime - d.decay < 0 ==> b.stepped(x, y, d).at(
            x,
            y,
        ).element_data == ElementData::air(),
        b.stepped(x, y, d).at(x, y).heat_value == b.at(x, y).element_data.emitting_heat,
{
    let warm = Cell { heat_value: b.diffused_at(x, y), ..b.at(x, y) };
    lemma_put(b, x, y, warm);
    lemma_put(b.warmed(x, y), x, y, flame_after(warm, d.decay));
}

/// A grid at rest but for one grain of sand: the border is solid, the cell
/// `(x, y)` inside it is sand, every other cell inside it is air, and every
/// cell is at zero degrees.
pub open spec fn lone_grain(cells: Seq<Cell>, x: int, y: int) -> bool {
    &&& cells.len() == CELLS
    &&& interior(x, y)
    &&& forall|cx: int, cy: int|
        in_grid(cx, cy) ==> #[trigger] cell_at(cells, cx, cy) == if cx == x && cy == y {
            Cell::fresh(ElementData::sand())
        } else if on_border(cx, cy) {
            Cell::fresh(ElementData::solid())
        } else {
            Cell::fresh(ElementData::air())
        }
}

/// The turn of the cell `(x, y)` inside the border: a column has 208 cells
/// inside the border.
spec fn turn_of(x: int, y: int) -> nat {
    ((x - 1) * 208 + (y - 1)) as nat
}

/// The exchanges queued after the first `k` turns on a grid at rest but for
/// a grain at `(x, y)`: the one that takes the grain down, once the grain had
/// its turn, if it is above row 1.
spec fn grain_queue(x: int, y: int, k: nat) -> Seq<Swap> {
    if y > 1 && k > turn_of(x, y) {
        seq![exchange(x, y, Way::Down)]
    } else {
        Seq::empty()
    }
}

proof fn lemma_grain_scanned(cells: Seq<Cell>, x: int, y: int, ds: Seq<Draws>, k: nat)
    requires
        lone_grain(cells, x, y),
        k <= INNER_CELLS,
    ensures
        Board::start(cells).scanned(ds, k) == (Board { cells, swaps: grain_queue(x, y, k) }),
    decreases k,
{
    if k > 0 {
        let n = (k - 1) as nat;
        lemma_grain_scanned(cells, x, y, ds, n);
        let before = Board { cells, swaps: grain_queue(x, y, n) };
        let cx = turn_col(n);
        let cy = turn_row(n);
        assert(interior(cx, cy));
        assert((cx == x && cy == y) <==> n == turn_of(x, y));
        lemma_slots(cx, cy, cx, cy);
        // Nothing is warm, so the cell stays at zero degrees.
        assert(before.diffused_at(cx, cy) == 0);
        assert(before.warmed(cx, cy) =~= before);
        // Air does nothing; the grain falls unless it lies on the floor.
        if cx == x && cy == y {
            if y > 1 {
                assert(before.grain_way_at(x, y) == Some(Way::Down));
            } else {
                assert(before.grain_way_at(x, y) == None::<Way>);
            }
        }
        assert(before.stepped(cx, cy, ds[k - 1]) =~= (Board {
            cells,
            swaps: grain_queue(x, y, k),
        }));
    }
}

/// On a grid at rest but for one grain of sand above row 1, a tick takes the
/// grain down by one row and changes nothing else, whatever is drawn.
pub proof fn lemma_grain_falls(cells: Seq<Cell>, x: int, y: int, ds: Seq<Draws>)
    requires
        lone_grain(cells, x, y),
        y > 1,
    ensures
        lone_grain(tick(cells, ds), x, y - 1),
        tick_swaps(cells, ds).len() == 1,
{
    lemma_grain_scanned(cells, x, y, ds, INNER_CELLS as nat);
    let s = exchange(x, y, Way::Down);
    let queue = seq![s];
    assert(queue.drop_last() =~= Seq::<Swap>::empty());
    assert(committed(cells, queue.drop_last()) == cells);
    assert(committed(cells, queue) == swapped(cells, s));
    let after = tick(cells, ds);
    lemma_slots(x, y, x, y - 1);
    lemma_slots(x, y - 1, x, y);
    assert forall|cx: int, cy: int| in_grid(cx, cy) implies #[trigger] cell_at(after, cx, cy)
        == if cx == x && cy == y - 1 {
        Cell::fresh(ElementData::sand())
    } else if on_border(cx, cy) {
        Cell::fresh(ElementData::solid())
    } else {
        Cell::fresh(ElementData::air())
    } by {
        lemma_slots(cx, cy, x, y);
        lemma_slots(cx, cy, x, y - 1);
        assert(cell_at(cells, x, y) == Cell::fresh(ElementData::sand()));
        assert(cell_at(cells, x, y - 1) == Cell::fresh(ElementData::air()));
        if !(cx == x && (cy == y || cy == y - 1)) {
            assert(cell_at(after, cx, cy) == cell_at(cells, cx, cy));
        }
    }
}

/// On a grid at rest but for one grain of sand in row 1, a tick changes
/// nothing, whatever is drawn.
pub proof fn lemma_grain_rests(cells: Seq<Cell>, x: int, ds: Seq<Draws>)
    requires
        lone_grain(cells, x, 1),
    ensures
        tick(cells, ds) == cells,
        tick_swaps(cells, ds).len() == 0,
{
    lemma_grain_scanned(cells, x, 1, ds, INNER_CELLS as nat);
}

/// On a grid at rest but for one grain of sand in row `y`, the grain lies in
/// row 1 after `y - 1` ticks or more, whatever is drawn in them.
pub proof fn lemma_grain_lands(cells: Seq<Cell>, x: int, y: int, rounds: Seq<Seq<Draws>>)
    requires
        lone_grain(cells, x, y),
    ensures
        rounds.len() <= y - 1 ==> lone_grain(ticks(cells, rounds), x, y - rounds.len()),
        rounds.len() >= y - 1 ==> lone_grain(ticks(cells, rounds), x, 1),
    decreases rounds.len(),
{
    if rounds.len() > 0 {
        let earlier = rounds.drop_last();
        lemma_grain_lands(cells, x, y, earlier);
        if earlier.len() < y - 1 {
            lemma_grain_falls(ticks(cells, earlier), x, y - earlier.len(), rounds.last());
        } else {
            lemma_grain_rests(ticks(cells, earlier), x, rounds.last());
        }
    }
}

} // verus!
