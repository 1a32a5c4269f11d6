//! The material registry: one fixed attribute set for each kind of material.

use vstd::prelude::*;

verus! {

/// Fixed-point steps per degree of temperature.
pub const HEAT_UNIT: i32 = 1000;

/// The lifetime of a material that does not expire.
pub const FOREVER: i16 = -1;

/// The temperature a fire holds itself at: 1000 degrees.
pub const FIRE_HEAT: i32 = 1000 * HEAT_UNIT;

/// The temperature lava holds itself at: 2000 degrees.
pub const LAVA_HEAT: i32 = 2000 * HEAT_UNIT;

/// The temperature a cold fire holds itself at: 1000 degrees below zero.
pub const COLDFIRE_HEAT: i32 = -1000 * HEAT_UNIT;

/// What ice adds to its own temperature every tick: 8 degrees of cooling.
pub const ICE_HEAT: i32 = -8 * HEAT_UNIT;

/// The substance a cell is made of.
#[derive(Copy, Clone, Debug, PartialEq, Eq, Structural)]
pub enum CellType {
    Air,
    Sand,
    Solid,
    Water,
    Steam,
    Fire,
    Coal,
    SawDust,
    Methane,
    Lava,
    ColdFire,
    Ice,
    Gasoline,
}

/// The phase of a material. Movement rules look at the phase of a
/// neighbour, not at what it is made of.
#[derive(Copy, Clone, Debug, PartialEq, Eq, Structural)]
pub enum State {
    Solid,
    Liquid,
    Gas,
    Plasma,
}

/// What the registry knows of a material: its kind, its colour as RGBA bytes,
/// its phase, the ticks it has left to live (`-1` for a material that does not
/// expire) and the temperature it gives off, in fixed-point steps.
#[derive(Copy, Clone, Debug)]
pub struct ElementData {
    pub cell_type: CellType,
    pub color: (u8, u8, u8, u8),
    pub state: State,
    pub lifetime: i16,
    pub emitting_heat: i32,
}

impl ElementData {
    /// What the registry holds for air.
    pub open spec fn air() -> Self {
        ElementData {
            cell_type: CellType::Air,
            color: (0u8, 0u8, 0u8, 0u8),
            state: State::Gas,
            lifetime: FOREVER,
            emitting_heat: 0,
        }
    }

    /// What the registry holds for sand.
    pub open spec fn sand() -> Self {
        ElementData {
            cell_type: CellType::Sand,
            color: (243u8, 239u8, 118u8, 255u8),
            state: State::Solid,
            lifetime: FOREVER,
            emitting_heat: 0,
        }
    }

    /// What the registry holds for the solid material.
    pub open spec fn solid() -> Self {
        ElementData {
            cell_type: CellType::Solid,
            color: (69u8, 62u8, 66u8, 255u8),
            state: State::Solid,
            lifetime: FOREVER,
            emitting_heat: 0,
        }
    }

    /// What the registry holds for water.
    pub open spec fn water() -> Self {
        ElementData {
            cell_type: CellType::Water,
            color: (18u8, 24u8, 204u8, 255u8),
            state: State::Liquid,
            lifetime: FOREVER,
            emitting_heat: 0,
        }
    }

    /// What the registry holds for steam.
    pub open spec fn steam() -> Self {
        ElementData {
            cell_type: CellType::Steam,
            color: (195u8, 225u8, 247u8, 255u8),
            state: State::Gas,
            lifetime: FOREVER,
            emitting_heat: 0,
        }
    }

    /// What the registry holds for fire with `lifetime` ticks to live.
    pub open spec fn fire(lifetime: i16) -> Self {
        ElementData {
            cell_type: CellType::Fire,
            color: (214u8, 32u8, 19u8, 255u8),
            state: State::Plasma,
            lifetime,
            emitting_heat: FIRE_HEAT,
        }
    }

    /// What the registry holds for coal.
    pub open spec fn coal() -> Self {
        ElementData {
            cell_type: CellType::Coal,
            color: (30u8, 30u8, 29u8, 255u8),
            state: State::Solid,
            lifetime: FOREVER,
            emitting_heat: 0,
        }
    }

    /// What the registry holds for sawdust.
    pub open spec fn sawdust() -> Self {
        ElementData {
            cell_type: CellType::SawDust,
            color: (219u8, 199u8, 120u8, 255u8),
            state: State::Solid,
            lifetime: FOREVER,
            emitting_heat: 0,
        }
    }

    /// What the registry holds for methane.
    pub open spec fn methane() -> Self {
        ElementData {
            cell_type: CellType::Methane,
            color: (133u8, 191u8, 47u8, 255u8),
            state: State::Gas,
            lifetime: FOREVER,
            emitting_heat: 0,
        }
    }

    /// What the registry holds for lava.
    pub open spec fn lava() -> Self {
        ElementData {
            cell_type: CellType::Lava,
            color: (150u8, 59u8, 28u8, 255u8),
            state: State::Liquid,
            lifetime: FOREVER,
            emitting_heat: LAVA_HEAT,
        }
    }

    /// What the registry holds for cold fire with `lifetime` ticks to live.
    pub open spec fn coldfire(lifetime: i16) -> Self {
        ElementData {
            cell_type: CellType::ColdFire,
            color: (59u8, 205u8, 219u8, 255u8),
            state: State::Plasma,
            lifetime,
            emitting_heat: COLDFIRE_HEAT,
        }
    }

    /// What the registry holds for ice.
    pub open spec fn ice() -> Self {
        ElementData {
            cell_type: CellType::Ice,
            color: (112u8, 169u8, 229u8, 255u8),
            state: State::Solid,
            lifetime: FOREVER,
            emitting_heat: ICE_HEAT,
        }
    }

    /// What the registry holds for gasoline.
    pub open spec fn gasoline() -> Self {
        ElementData {
            cell_type: CellType::Gasoline,
            color: (220u8, 207u8, 61u8, 255u8),
            state: State::Solid,
            lifetime: FOREVER,
            emitting_heat: 0,
        }
    }

    /// Air: a gas that shows nothing.
    pub fn air_element() -> (e: Self)
        ensures
            e == Self::air(),
    {
        ElementData {
            cell_type: CellType::Air,
            color: (0, 0, 0, 0),
            state: State::Gas,
            lifetime: FOREVER,
            emitting_heat: 0,
        }
    }

    /// Sand: a solid that falls.
    pub fn sand_element() -> (e: Self)
        ensures
            e == Self::sand(),
    {
        ElementData {
            cell_type: CellType::Sand,
            color: (243, 239, 118, 255),
            state: State::Solid,
            lifetime: FOREVER,
            emitting_heat: 0,
        }
    }

    /// The solid material, of which the border is made.
    pub fn solid_element() -> (e: Self)
        ensures
            e == Self::solid(),
    {
        ElementData {
            cell_type: CellType::Solid,
            color: (69, 62, 66, 255),
            state: State::Solid,
            lifetime: FOREVER,
            emitting_heat: 0,
        }
    }

    /// Water: a liquid.
    pub fn water_element() -> (e: Self)
        ensures
            e == Self::water(),
    {
        ElementData {
            cell_type: CellType::Water,
            color: (18, 24, 204, 255),
            state: State::Liquid,
            lifetime: FOREVER,
            emitting_heat: 0,
        }
    }

    /// Steam: a gas.
    pub fn steam_element() -> (e: Self)
        ensures
            e == Self::steam(),
    {
        ElementData {
            cell_type: CellType::Steam,
            color: (195, 225, 247, 255),
            state: State::Gas,
            lifetime: FOREVER,
            emitting_heat: 0,
        }
    }

    /// Fire with `lifetime` ticks to live: a plasma that holds itself at 1000
    /// degrees.
    pub fn fire_element(lifetime: i16) -> (e: Self)
        ensures
            e == Self::fire(lifetime),
    {
        ElementData {
            cell_type: CellType::Fire,
            color: (214, 32, 19, 255),
            state: State::Plasma,
            lifetime: lifetime,
            emitting_heat: FIRE_HEAT,
        }
    }

    /// Coal: a solid that burns long.
    pub fn coal_element() -> (e: Self)
        ensures
            e == Self::coal(),
    {
        ElementData {
            cell_type: CellType::Coal,
            color: (30, 30, 29, 255),
            state: State::Solid,
            lifetime: FOREVER,
            emitting_heat: 0,
        }
    }

    /// Sawdust: a solid that falls and burns.
    pub fn sawdust_element() -> (e: Self)
        ensures
            e == Self::sawdust(),
    {
        ElementData {
            cell_type: CellType::SawDust,
            color: (219, 199, 120, 255),
            state: State::Solid,
            lifetime: FOREVER,
            emitting_heat: 0,
        }
    }

    /// Methane: a gas that ignites.
    pub fn methane_element() -> (e: Self)
        ensures
            e == Self::methane(),
    {
        ElementData {
            cell_type: CellType::Methane,
            color: (133, 191, 47, 255),
            state: State::Gas,
            lifetime: FOREVER,
            emitting_heat: 0,
        }
    }

    /// Lava: a liquid that holds itself at 2000 degrees.
    pub fn lava_element() -> (e: Self)
        ensures
            e == Self::lava(),
    {
        ElementData {
            cell_type: CellType::Lava,
            color: (150, 59, 28, 255),
            state: State::Liquid,
            lifetime: FOREVER,
            emitting_heat: LAVA_HEAT,
        }
    }

    /// Cold fire with `lifetime` ticks to live: a plasma that holds itself at
    /// 1000 degrees below zero.
    pub fn coldfire_element(lifetime: i16) -> (e: Self)
        ensures
            e == Self::coldfire(lifetime),
    {
        ElementData {
            cell_type: CellType::ColdFire,
            color: (59, 205, 219, 255),
            state: State::Plasma,
            lifetime: lifetime,
            emitting_heat: COLDFIRE_HEAT,
        }
    }

    /// Ice: a solid that cools itself.
    pub fn ice_element() -> (e: Self)
        ensures
            e == Self::ice(),
    {
        ElementData {
            cell_type: CellType::Ice,
            color: (112, 169, 229, 255),
            state: State::Solid,
            lifetime: FOREVER,
            emitting_heat: ICE_HEAT,
        }
    }

    /// Gasoline: it flows, and it burns fast.
    pub fn gasoline_element() -> (e: Self)
        ensures
            e == Self::gasoline(),
    {
        ElementData {
            cell_type: CellType::Gasoline,
            color: (220, 207, 61, 255),
            state: State::Solid,
            lifetime: FOREVER,
            emitting_heat: 0,
        }
    }
}

} // verus!
