//! The rules of the automaton, one cell at a time.
//!
//! Every function here works on plain values: the temperature or the phase of
//! a neighbour, the cell itself, a number that was drawn. What a rule needs
//! from chance is an argument, so each rule is a function in the ordinary
//! sense and says exactly what it returns.

use vstd::prelude::*;
use crate::cell::Cell;
use crate::material::{CellType, ElementData, State, HEAT_UNIT};

verus! {

/// The bound of a per-mille roll: a roll is a number below it.
pub const ROLL_BOUND: u32 = 1000;

/// Water freezes below this temperature, and ice may thaw above it.
pub const FREEZING: i32 = -100 * HEAT_UNIT;

/// Water boils, and methane ignites, above this temperature.
pub const BOILING: i32 = 100 * HEAT_UNIT;

/// Steam below this temperature may condense, with [`CONDENSE_CHANCE`].
pub const DEW_POINT: i32 = HEAT_UNIT;

/// Steam below this temperature always condenses.
pub const CONDENSING: i32 = -50 * HEAT_UNIT;

/// The chance, per mille, that cool steam condenses in a tick.
pub const CONDENSE_CHANCE: u32 = 1;

/// The chance, per mille, that ice above [`FREEZING`] thaws in a tick.
pub const THAW_CHANCE: u32 = 100;

/// The lifetime of the fire that ignited methane turns into.
pub const METHANE_FLAME: i16 = 80;

/// Coal ignites above this temperature.
pub const COAL_FLASH_POINT: i32 = 400 * HEAT_UNIT;

/// Sawdust and gasoline ignite above this temperature.
pub const TINDER_FLASH_POINT: i32 = 250 * HEAT_UNIT;

/// The colour of coal and sawdust once they burn.
pub const CHARRED: (u8, u8, u8, u8) = (50, 30, 29, 255);

/// The most a flame, hot or cold, can lose of its lifetime in one tick.
pub const FLAME_DECAY: i16 = 5;

/// The direction of a move to a neighbouring cell. Down is towards row 0.
#[derive(Copy, Clone, Debug, PartialEq, Eq, Structural)]
pub enum Way {
    Up,
    Down,
    Left,
    Right,
    DownLeft,
    DownRight,
}

/// How a combustible material burns.
#[derive(Copy, Clone, Debug)]
pub struct Fuel {
    /// It ignites when hotter than this.
    pub flash_point: i32,
    /// The lifetime it is given when it ignites.
    pub burn_time: i16,
    /// Whether it takes the [`CHARRED`] colour when it ignites.
    pub chars: bool,
    /// Each tick it burns, it loses between 1 and this much lifetime.
    pub max_decay: i16,
    /// The chance, per mille, that it sets a neighbouring cell of air alight.
    pub spread: u32,
    /// The lifetime of the fire it starts.
    pub flame: i16,
}

/// `n` divided by `d`, rounded towards zero.
pub open spec fn quotient_toward_zero(n: int, d: int) -> int
    recommends
        d > 0,
{
    if n >= 0 {
        n / d
    } else {
        -((-n) / d)
    }
}

/// The temperature a cell takes from its four neighbours: a quarter of their
/// sum, with the neighbour below counted at nine tenths, rounded towards zero.
/// The cell's own temperature plays no part.
pub open spec fn diffused(left: int, right: int, below: int, above: int) -> int {
    quotient_toward_zero(10 * left + 10 * right + 9 * below + 10 * above, 40)
}

/// `heat`, kept within what a temperature can hold.
pub open spec fn clamped(heat: int) -> int {
    if heat < i32::MIN {
        i32::MIN as int
    } else if heat > i32::MAX {
        i32::MAX as int
    } else {
        heat
    }
}

/// A lifetime after it lost `decay`, kept within what a lifetime can hold.
pub open spec fn aged(lifetime: i16, decay: i16) -> i16 {
    if lifetime - decay < i16::MIN {
        i16::MIN
    } else if lifetime - decay > i16::MAX {
        i16::MAX
    } else {
        (lifetime - decay) as i16
    }
}

/// Whether a liquid can move into a cell of this phase.
pub open spec fn yields(state: State) -> bool {
    state == State::Gas || state == State::Plasma
}

/// Where a grain moves: straight down unless the cell below is solid; else
/// down and right if neither that cell nor the one to the right is solid;
/// else down and left on the same terms; else nowhere.
pub open spec fn grain_way(
    below: State,
    below_right: State,
    right: State,
    below_left: State,
    left: State,
) -> Option<Way> {
    if below != State::Solid {
        Some(Way::Down)
    } else if below_right != State::Solid && right != State::Solid {
        Some(Way::DownRight)
    } else if below_left != State::Solid && left != State::Solid {
        Some(Way::DownLeft)
    } else {
        None
    }
}

/// Whether a liquid over a cell of phase `below` needs a coin to decide:
/// it does unless it can move straight down.
pub open spec fn liquid_flips(below: State) -> bool {
    !yields(below)
}

/// Where a liquid moves. Straight down into gas or plasma. Else along a
/// diagonal whose two cells, the one below it and the one beside, are both
/// gas: the right one on heads, the left one on tails, and the other one
/// where only that is open. Else sideways into gas or plasma, to the right
/// on heads and to the left on tails, or nowhere if that side is closed.
pub open spec fn liquid_way(
    below: State,
    below_right: State,
    right: State,
    below_left: State,
    left: State,
    coin: bool,
) -> Option<Way> {
    let right_open = below_right == State::Gas && right == State::Gas;
    let left_open = below_left == State::Gas && left == State::Gas;
    if yields(below) {
        Some(Way::Down)
    } else if right_open || left_open {
        if right_open && (coin || !left_open) {
            Some(Way::DownRight)
        } else {
            Some(Way::DownLeft)
        }
    } else if coin {
        if yields(right) {
            Some(Way::Right)
        } else {
            None
        }
    } else {
        if yields(left) {
            Some(Way::Left)
        } else {
            None
        }
    }
}

/// Whether a gas of kind `own` changes places with `other`: only with a gas
/// of another kind.
pub open spec fn gas_passes(own: CellType, other: ElementData) -> bool {
    other.state == State::Gas && other.cell_type != own
}

/// Where a gas drifts sideways on a roll, when its chance to drift either way
/// is `spread` per mille: left on a roll below `spread`, right on a roll of
/// `ROLL_BOUND - spread` or more, and only past a neighbour it can pass.
pub open spec fn gas_drift(
    own: CellType,
    left: ElementData,
    right: ElementData,
    roll: u32,
    spread: u32,
) -> Option<Way> {
    if roll < spread {
        if gas_passes(own, left) {
            Some(Way::Left)
        } else {
            None
        }
    } else if roll + spread >= ROLL_BOUND {
        if gas_passes(own, right) {
            Some(Way::Right)
        } else {
            None
        }
    } else {
        None
    }
}

/// Whether a neighbour of a burning cell catches fire: it is air, and the
/// roll is below the chance.
pub open spec fn catches(kind: CellType, roll: u32, chance: u32) -> bool {
    kind == CellType::Air && roll < chance
}

/// How each combustible material burns; `None` for the other materials.
pub open spec fn fuel_of(kind: CellType) -> Option<Fuel> {
    match kind {
        CellType::Coal => Some(
            Fuel {
                flash_point: COAL_FLASH_POINT,
                burn_time: 500,
                chars: true,
                max_decay: 2,
                spread: 40,
                flame: 40,
            },
        ),
        CellType::SawDust => Some(
            Fuel {
                flash_point: TINDER_FLASH_POINT,
                burn_time: 300,
                chars: true,
                max_decay: 2,
                spread: 100,
                flame: 60,
            },
        ),
        CellType::Gasoline => Some(
            Fuel {
                flash_point: TINDER_FLASH_POINT,
                burn_time: 120,
                chars: false,
                max_decay: 3,
                spread: 200,
                flame: 90,
            },
        ),
        _ => None,
    }
}

/// Water after a tick: ice below [`FREEZING`], steam above [`BOILING`],
/// water in between. Temperature and latch stay.
pub open spec fn water_after(cell: Cell) -> Cell {
    if cell.heat_value < FREEZING {
        Cell { element_data: ElementData::ice(), ..cell }
    } else if cell.heat_value > BOILING {
        Cell { element_data: ElementData::steam(), ..cell }
    } else {
        cell
    }
}

/// Steam after a tick: water if it is below [`CONDENSING`], or below
/// [`DEW_POINT`] with a roll below [`CONDENSE_CHANCE`]; else steam.
pub open spec fn steam_after(cell: Cell, roll: u32) -> Cell {
    if cell.heat_value < CONDENSING || (cell.heat_value < DEW_POINT && roll < CONDENSE_CHANCE) {
        Cell { element_data: ElementData::water(), ..cell }
    } else {
        cell
    }
}

/// A flame, hot or cold, after a tick in which it lost `decay` of its
/// lifetime: it is at the temperature it gives off, and it is air once its
/// lifetime is below zero.
pub open spec fn flame_after(cell: Cell, decay: i16) -> Cell {
    let left = aged(cell.element_data.lifetime, decay);
    let heat_value = cell.element_data.emitting_heat;
    if left < 0 {
        Cell { element_data: ElementData::air(), heat_value, ..cell }
    } else {
        Cell { element_data: ElementData { lifetime: left, ..cell.element_data }, heat_value, ..cell }
    }
}

/// A combustible cell after the check for ignition: hotter than the flash
/// point and not yet burning, it starts to burn with its full burn time.
pub open spec fn kindled(cell: Cell, fuel: Fuel) -> Cell {
    if cell.heat_value > fuel.flash_point && !cell.active {
        Cell {
            element_data: ElementData {
                lifetime: fuel.burn_time,
                color: if fuel.chars {
                    CHARRED
                } else {
                    cell.element_data.color
                },
                ..cell.element_data
            },
            active: true,
            ..cell
        }
    } else {
        cell
    }
}

/// A burning cell after it lost `decay` of its lifetime.
pub open spec fn smouldered(cell: Cell, decay: i16) -> Cell {
    Cell {
        element_data: ElementData {
            lifetime: aged(cell.element_data.lifetime, decay),
            ..cell.element_data
        },
        ..cell
    }
}

/// A combustible cell at the end of its tick: burnt out, it is air and no
/// longer burning.
pub open spec fn spent(cell: Cell) -> Cell {
    if cell.element_data.lifetime < 0 && cell.active {
        Cell { element_data: ElementData::air(), active: false, ..cell }
    } else {
        cell
    }
}

/// Whether methane at this temperature ignites.
pub open spec fn methane_ignites(cell: Cell) -> bool {
    cell.heat_value > BOILING
}

/// Lava after a tick: at the temperature it gives off.
pub open spec fn lava_after(cell: Cell) -> Cell {
    Cell { heat_value: cell.element_data.emitting_heat, ..cell }
}

/// Ice after it has cooled itself, before it may thaw.
pub open spec fn ice_cooled(cell: Cell) -> Cell {
    Cell { heat_value: clamped(cell.heat_value + cell.element_data.emitting_heat) as i32, ..cell }
}

/// Ice after a tick: cooled by what it gives off, and water if it is then
/// above [`FREEZING`] with a roll below [`THAW_CHANCE`].
pub open spec fn ice_after(cell: Cell, roll: u32) -> Cell {
    let cooled = ice_cooled(cell);
    if cooled.heat_value > FREEZING && roll < THAW_CHANCE {
        Cell { element_data: ElementData::water(), ..cooled }
    } else {
        cooled
    }
}

/// The temperature a cell takes from its four neighbours.
pub fn diffuse(left: i32, right: i32, below: i32, above: i32) -> (heat: i32)
    ensures
        heat == diffused(left as int, right as int, below as int, above as int),
{
    let sum: i64 = 10 * (left as i64) + 10 * (right as i64) + 9 * (below as i64) + 10 * (
    above as i64);
    if sum >= 0 {
        (sum / 40) as i32
    } else {
        (-((-sum) / 40)) as i32
    }
}

/// `heat`, kept within what a temperature can hold.
pub fn clamp_heat(heat: i64) -> (h: i32)
    ensures
        h == clamped(heat as int),
{
    if heat < i32::MIN as i64 {
        i32::MIN
    } else if heat > i32::MAX as i64 {
        i32::MAX
    } else {
        heat as i32
    }
}

/// A lifetime after it lost `decay`.
pub fn age(lifetime: i16, decay: i16) -> (left: i16)
    ensures
        left == aged(lifetime, decay),
{
    let wide: i32 = lifetime as i32 - decay as i32;
    if wide < i16::MIN as i32 {
        i16::MIN
    } else if wide > i16::MAX as i32 {
        i16::MAX
    } else {
        wide as i16
    }
}

/// Whether a liquid can move into a cell of this phase.
pub fn gives_way(state: State) -> (open: bool)
    ensures
        open == yields(state),
{
    state == State::Gas || state == State::Plasma
}

/// Where a grain moves, given the phases of the cells below it and beside it.
pub fn settle(below: State, below_right: State, right: State, below_left: State, left: State) -> (way:
    Option<Way>)
    ensures
        way == grain_way(below, below_right, right, below_left, left),
{
    if below != State::Solid {
        Some(Way::Down)
    } else if below_right != State::Solid && right != State::Solid {
        Some(Way::DownRight)
    } else if below_left != State::Solid && left != State::Solid {
        Some(Way::DownLeft)
    } else {
        None
    }
}

/// Whether a liquid over a cell of phase `below` needs a coin to decide.
pub fn needs_coin(below: State) -> (flips: bool)
    ensures
        flips == liquid_flips(below),
{
    !gives_way(below)
}

/// Where a liquid moves, given the phases of the cells below it and beside
/// it, and the coin.
pub fn flow(
    below: State,
    below_right: State,
    right: State,
    below_left: State,
    left: State,
    coin: bool,
) -> (way: Option<Way>)
    ensures
        way == liquid_way(below, below_right, right, below_left, left, coin),
{
    let right_open = below_right == State::Gas && right == State::Gas;
    let left_open = below_left == State::Gas && left == State::Gas;
    if gives_way(below) {
        Some(Way::Down)
    } else if right_open || left_open {
        if coin {
            if right_open {
                Some(Way::DownRight)
            } else {
                Some(Way::DownLeft)
            }
        } else if left_open {
            Some(Way::DownLeft)
        } else {
            Some(Way::DownRight)
        }
    } else if coin {
        if gives_way(right) {
            Some(Way::Right)
        } else {
            None
        }
    } else if gives_way(left) {
        Some(Way::Left)
    } else {
        None
    }
}

/// Whether a gas of kind `own` changes places with `other`.
pub fn can_pass(own: CellType, other: &ElementData) -> (passes: bool)
    ensures
        passes == gas_passes(own, *other),
{
    other.state == State::Gas && other.cell_type != own
}

/// Where a gas drifts sideways, given its neighbours to the left and to the
/// right, the roll, and its chance to drift either way.
pub fn drift(own: CellType, left: &ElementData, right: &ElementData, roll: u32, spread: u32) -> (way:
    Option<Way>)
    ensures
        way == gas_drift(own, *left, *right, roll, spread),
{
    if roll < spread {
        if can_pass(own, left) {
            Some(Way::Left)
        } else {
            None
        }
    } else if roll as u64 + spread as u64 >= ROLL_BOUND as u64 {
        if can_pass(own, right) {
            Some(Way::Right)
        } else {
            None
        }
    } else {
        None
    }
}

/// Whether a neighbour of a burning cell catches fire on this roll.
pub fn ignites(kind: CellType, roll: u32, chance: u32) -> (lit: bool)
    ensures
        lit == catches(kind, roll, chance),
{
    kind == CellType::Air && roll < chance
}

/// How a material burns, if it does.
pub fn fuel(kind: CellType) -> (f: Option<Fuel>)
    ensures
        f == fuel_of(kind),
{
    match kind {
        CellType::Coal => Some(
            Fuel {
                flash_point: COAL_FLASH_POINT,
                burn_time: 500,
                chars: true,
                max_decay: 2,
                spread: 40,
                flame: 40,
            },
        ),
        CellType::SawDust => Some(
            Fuel {
                flash_point: TINDER_FLASH_POINT,
                burn_time: 300,
                chars: true,
                max_decay: 2,
                spread: 100,
                flame: 60,
            },
        ),
        CellType::Gasoline => Some(
            Fuel {
                flash_point: TINDER_FLASH_POINT,
                burn_time: 120,
                chars: false,
                max_decay: 3,
                spread: 200,
                flame: 90,
            },
        ),
        _ => None,
    }
}

/// Water after a tick.
pub fn water_tick(cell: Cell) -> (next: Cell)
    ensures
        next == water_after(cell),
{
    let mut next = cell;
    if cell.heat_value < FREEZING {
        next.element_data = ElementData::ice_element();
    } else if cell.heat_value > BOILING {
        next.element_data = ElementData::steam_element();
    }
    next
}

/// Steam after a tick, given the roll for condensing.
pub fn steam_tick(cell: Cell, roll: u32) -> (next: Cell)
    ensures
        next == steam_after(cell, roll),
{
    let mut next = cell;
    if cell.heat_value < DEW_POINT && roll < CONDENSE_CHANCE {
        next.element_data = ElementData::water_element();
    }
    if cell.heat_value < CONDENSING {
        next.element_data = ElementData::water_element();
    }
    next
}

/// A flame, hot or cold, after a tick in which it lost `decay` of its
/// lifetime.
pub fn flame_tick(cell: Cell, decay: i16) -> (next: Cell)
    ensures
        next == flame_after(cell, decay),
{
    let mut next = cell;
    next.element_data.lifetime = age(cell.element_data.lifetime, decay);
    next.heat_value = cell.element_data.emitting_heat;
    if next.element_data.lifetime < 0 {
        next.element_data = ElementData::air_element();
    }
    next
}

/// A combustible cell after the check for ignition.
pub fn kindle(cell: Cell, fuel: &Fuel) -> (next: Cell)
    ensures
        next == kindled(cell, *fuel),
{
    let mut next = cell;
    if cell.heat_value > fuel.flash_point && !cell.active {
        next.active = true;
        next.element_data.lifetime = fuel.burn_time;
        if fuel.chars {
            next.element_data.color = CHARRED;
        }
    }
    next
}

/// A burning cell after it lost `decay` of its lifetime.
pub fn smoulder(cell: Cell, decay: i16) -> (next: Cell)
    ensures
        next == smouldered(cell, decay),
{
    let mut next = cell;
    next.element_data.lifetime = age(cell.element_data.lifetime, decay);
    next
}

/// A combustible cell at the end of its tick.
pub fn burn_out(cell: Cell) -> (next: Cell)
    ensures
        next == spent(cell),
{
    let mut next = cell;
    if cell.element_data.lifetime < 0 && cell.active {
        next.element_data = ElementData::air_element();
        next.active = false;
    }
    next
}

/// Lava after a tick.
pub fn lava_tick(cell: Cell) -> (next: Cell)
    ensures
        next == lava_after(cell),
{
    let mut next = cell;
    next.heat_value = cell.element_data.emitting_heat;
    next
}

/// Ice after it has cooled itself, before it may thaw.
pub fn cool_ice(cell: Cell) -> (next: Cell)
    ensures
        next == ice_cooled(cell),
{
    let mut next = cell;
    next.heat_value = clamp_heat(cell.heat_value as i64 + cell.element_data.emitting_heat as i64);
    next
}

/// Ice after a tick, given the roll for thawing.
pub fn ice_tick(cell: Cell, roll: u32) -> (next: Cell)
    ensures
        next == ice_after(cell, roll),
{
    let mut next = cool_ice(cell);
    if next.heat_value > FREEZING && roll < THAW_CHANCE {
        next.element_data = ElementData::water_element();
    }
    next
}

} // verus!
