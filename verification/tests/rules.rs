use falling_sand::cell::Cell;
use falling_sand::material::{CellType, ElementData, State, HEAT_UNIT};
use falling_sand::rules::{
    age, burn_out, can_pass, clamp_heat, cool_ice, diffuse, drift, flame_tick, flow, fuel,
    gives_way, ice_tick, ignites, kindle, lava_tick, needs_coin, settle, smoulder, steam_tick,
    water_tick, Way, BOILING, CHARRED, COAL_FLASH_POINT, CONDENSING, DEW_POINT, FREEZING,
    ROLL_BOUND, TINDER_FLASH_POINT,
};

const S: State = State::Solid;
const L: State = State::Liquid;
const G: State = State::Gas;
const P: State = State::Plasma;

fn with_heat(element_data: ElementData, heat_value: i32) -> Cell {
    Cell { element_data, heat_value, active: false }
}

#[test]
fn diffusion_weighs_the_cell_below_less() {
    assert_eq!(diffuse(0, 0, 0, 0), 0);
    assert_eq!(diffuse(4000, 0, 0, 0), 1000);
    assert_eq!(diffuse(0, 4000, 0, 0), 1000);
    assert_eq!(diffuse(0, 0, 0, 4000), 1000);
    assert_eq!(diffuse(0, 0, 4000, 0), 900);
    assert_eq!(diffuse(1000, 1000, 1000, 1000), 975);
    assert_eq!(diffuse(37_500, 0, 37_500, 0), 17_812);
}

#[test]
fn diffusion_rounds_towards_zero() {
    assert_eq!(diffuse(1, 1, 1, 0), 0);
    assert_eq!(diffuse(3, 1, 0, 0), 1);
    assert_eq!(diffuse(-3, -1, 0, 0), -1);
    assert_eq!(diffuse(-1, -1, -1, 0), 0);
    assert_eq!(diffuse(-37_500, 0, -37_500, 0), -17_812);
    assert_eq!(diffuse(0, 0, 1, 3), 0);
    assert_eq!(diffuse(0, 0, -10, -3), -3);
}

#[test]
fn diffusion_holds_at_the_ends_of_the_range() {
    assert_eq!(diffuse(i32::MAX, i32::MAX, i32::MAX, i32::MAX), 2_093_796_555);
    assert_eq!(diffuse(i32::MIN, i32::MIN, i32::MIN, i32::MIN), -2_093_796_556);
    assert_eq!(diffuse(i32::MAX, i32::MIN, 0, 0), 0);
}

#[test]
fn heat_is_clamped() {
    assert_eq!(clamp_heat(0), 0);
    assert_eq!(clamp_heat(-5), -5);
    assert_eq!(clamp_heat(i32::MAX as i64), i32::MAX);
    assert_eq!(clamp_heat(i32::MAX as i64 + 1), i32::MAX);
    assert_eq!(clamp_heat(i32::MIN as i64 - 8000), i32::MIN);
    assert_eq!(clamp_heat(i64::MAX), i32::MAX);
    assert_eq!(clamp_heat(i64::MIN), i32::MIN);
}

#[test]
fn lifetimes_age_within_their_range() {
    assert_eq!(age(10, 3), 7);
    assert_eq!(age(0, 1), -1);
    assert_eq!(age(-1, 5), -6);
    assert_eq!(age(i16::MIN, 1), i16::MIN);
    assert_eq!(age(i16::MIN + 2, 5), i16::MIN);
    assert_eq!(age(i16::MAX, -1), i16::MAX);
    assert_eq!(age(5, -2), 7);
}

#[test]
fn liquids_enter_gas_and_plasma_only() {
    assert!(gives_way(G));
    assert!(gives_way(P));
    assert!(!gives_way(L));
    assert!(!gives_way(S));
    assert!(!needs_coin(G));
    assert!(!needs_coin(P));
    assert!(needs_coin(L));
    assert!(needs_coin(S));
}

#[test]
fn grains_prefer_straight_down() {
    assert_eq!(settle(G, S, S, S, S), Some(Way::Down));
    assert_eq!(settle(L, G, G, G, G), Some(Way::Down));
    assert_eq!(settle(P, S, S, S, S), Some(Way::Down));
}

#[test]
fn grains_slide_right_before_left() {
    assert_eq!(settle(S, G, G, G, G), Some(Way::DownRight));
    assert_eq!(settle(S, L, P, G, G), Some(Way::DownRight));
    assert_eq!(settle(S, S, G, G, G), Some(Way::DownLeft));
    assert_eq!(settle(S, G, S, G, L), Some(Way::DownLeft));
}

#[test]
fn grains_rest_when_hemmed_in() {
    assert_eq!(settle(S, S, S, S, S), None);
    assert_eq!(settle(S, G, S, S, G), None);
    assert_eq!(settle(S, S, G, G, S), None);
}

#[test]
fn liquids_fall_without_the_coin() {
    for coin in [true, false] {
        assert_eq!(flow(G, S, S, S, S, coin), Some(Way::Down));
        assert_eq!(flow(P, G, G, G, G, coin), Some(Way::Down));
    }
}

#[test]
fn liquids_pick_a_diagonal_by_the_coin() {
    assert_eq!(flow(S, G, G, G, G, true), Some(Way::DownRight));
    assert_eq!(flow(S, G, G, G, G, false), Some(Way::DownLeft));
    assert_eq!(flow(L, G, G, S, G, true), Some(Way::DownRight));
    assert_eq!(flow(L, G, G, S, G, false), Some(Way::DownRight));
    assert_eq!(flow(L, S, G, G, G, true), Some(Way::DownLeft));
    assert_eq!(flow(L, S, G, G, G, false), Some(Way::DownLeft));
}

#[test]
fn liquids_need_gas_on_the_diagonal() {
    assert_eq!(flow(S, P, G, P, G, true), Some(Way::Right));
    assert_eq!(flow(S, G, P, G, P, true), Some(Way::Right));
    assert_eq!(flow(S, G, P, G, P, false), Some(Way::Left));
}

#[test]
fn liquids_spread_sideways_by_the_coin() {
    assert_eq!(flow(S, S, G, S, G, true), Some(Way::Right));
    assert_eq!(flow(S, S, G, S, G, false), Some(Way::Left));
    assert_eq!(flow(S, S, S, S, G, true), None);
    assert_eq!(flow(S, S, G, S, S, false), None);
    assert_eq!(flow(S, S, L, S, L, true), None);
    assert_eq!(flow(S, S, S, S, S, false), None);
}

#[test]
fn gases_pass_other_gases_only() {
    assert!(can_pass(CellType::Steam, &ElementData::air_element()));
    assert!(can_pass(CellType::Air, &ElementData::methane_element()));
    assert!(!can_pass(CellType::Steam, &ElementData::steam_element()));
    assert!(!can_pass(CellType::Steam, &ElementData::fire_element(10)));
    assert!(!can_pass(CellType::Steam, &ElementData::water_element()));
    assert!(!can_pass(CellType::Fire, &ElementData::solid_element()));
}

#[test]
fn gases_drift_on_the_ends_of_the_roll() {
    let air = ElementData::air_element();
    let wall = ElementData::solid_element();
    assert_eq!(drift(CellType::Steam, &air, &air, 0, 330), Some(Way::Left));
    assert_eq!(drift(CellType::Steam, &air, &air, 329, 330), Some(Way::Left));
    assert_eq!(drift(CellType::Steam, &air, &air, 330, 330), None);
    assert_eq!(drift(CellType::Steam, &air, &air, 669, 330), None);
    assert_eq!(drift(CellType::Steam, &air, &air, 670, 330), Some(Way::Right));
    assert_eq!(drift(CellType::Steam, &air, &air, 999, 330), Some(Way::Right));
    assert_eq!(drift(CellType::Fire, &air, &air, 249, 250), Some(Way::Left));
    assert_eq!(drift(CellType::Fire, &air, &air, 250, 250), None);
    assert_eq!(drift(CellType::Fire, &air, &air, 749, 250), None);
    assert_eq!(drift(CellType::Fire, &air, &air, 750, 250), Some(Way::Right));
    assert_eq!(drift(CellType::Steam, &wall, &air, 0, 330), None);
    assert_eq!(drift(CellType::Steam, &air, &wall, 999, 330), None);
    assert_eq!(drift(CellType::Air, &air, &air, 0, 330), None);
    assert_eq!(drift(CellType::Steam, &air, &air, 500, 0), None);
    assert_eq!(drift(CellType::Steam, &air, &air, u32::MAX, u32::MAX), Some(Way::Right));
}

#[test]
fn only_air_catches_fire() {
    assert!(ignites(CellType::Air, 0, 40));
    assert!(ignites(CellType::Air, 39, 40));
    assert!(!ignites(CellType::Air, 40, 40));
    assert!(!ignites(CellType::Air, 999, 200));
    assert!(!ignites(CellType::Air, 0, 0));
    assert!(!ignites(CellType::Water, 0, 40));
    assert!(!ignites(CellType::Solid, 0, ROLL_BOUND));
}

#[test]
fn fuels() {
    let coal = fuel(CellType::Coal).unwrap();
    assert_eq!(coal.flash_point, 400 * HEAT_UNIT);
    assert_eq!(coal.flash_point, COAL_FLASH_POINT);
    assert_eq!((coal.burn_time, coal.chars, coal.max_decay), (500, true, 2));
    assert_eq!((coal.spread, coal.flame), (40, 40));
    let dust = fuel(CellType::SawDust).unwrap();
    assert_eq!(dust.flash_point, 250 * HEAT_UNIT);
    assert_eq!(dust.flash_point, TINDER_FLASH_POINT);
    assert_eq!((dust.burn_time, dust.chars, dust.max_decay), (300, true, 2));
    assert_eq!((dust.spread, dust.flame), (100, 60));
    let gasoline = fuel(CellType::Gasoline).unwrap();
    assert_eq!(gasoline.flash_point, 250 * HEAT_UNIT);
    assert_eq!((gasoline.burn_time, gasoline.chars, gasoline.max_decay), (120, false, 3));
    assert_eq!((gasoline.spread, gasoline.flame), (200, 90));
    for kind in [
        CellType::Air,
        CellType::Sand,
        CellType::Solid,
        CellType::Water,
        CellType::Steam,
        CellType::Fire,
        CellType::Methane,
        CellType::Lava,
        CellType::ColdFire,
        CellType::Ice,
    ] {
        assert!(fuel(kind).is_none());
    }
}

#[test]
fn water_freezes_below_minus_100() {
    assert_eq!(FREEZING, -100_000);
    let cold = water_tick(with_heat(ElementData::water_element(), -100_001));
    assert_eq!(cold.element_data.cell_type, CellType::Ice);
    assert_eq!(cold.element_data.state, State::Solid);
    assert_eq!(cold.element_data.emitting_heat, -8000);
    assert_eq!(cold.heat_value, -100_001);
    let edge = water_tick(with_heat(ElementData::water_element(), -100_000));
    assert_eq!(edge.element_data.cell_type, CellType::Water);
}

#[test]
fn water_boils_above_100() {
    assert_eq!(BOILING, 100_000);
    let hot = water_tick(with_heat(ElementData::water_element(), 100_001));
    assert_eq!(hot.element_data.cell_type, CellType::Steam);
    assert_eq!(hot.element_data.state, State::Gas);
    assert_eq!(hot.heat_value, 100_001);
    let edge = water_tick(with_heat(ElementData::water_element(), 100_000));
    assert_eq!(edge.element_data.cell_type, CellType::Water);
    let mild = water_tick(with_heat(ElementData::water_element(), 0));
    assert_eq!(mild.element_data.cell_type, CellType::Water);
}

#[test]
fn steam_condenses_by_chance_when_cool() {
    assert_eq!(DEW_POINT, 1000);
    let cool = with_heat(ElementData::steam_element(), 999);
    assert_eq!(steam_tick(cool, 0).element_data.cell_type, CellType::Water);
    assert_eq!(steam_tick(cool, 1).element_data.cell_type, CellType::Steam);
    assert_eq!(steam_tick(cool, 999).element_data.cell_type, CellType::Steam);
    let warm = with_heat(ElementData::steam_element(), 1000);
    assert_eq!(steam_tick(warm, 0).element_data.cell_type, CellType::Steam);
}

#[test]
fn steam_condenses_for_certain_when_cold() {
    assert_eq!(CONDENSING, -50_000);
    let cold = with_heat(ElementData::steam_element(), -50_001);
    assert_eq!(steam_tick(cold, 999).element_data.cell_type, CellType::Water);
    assert_eq!(steam_tick(cold, 999).heat_value, -50_001);
    let edge = with_heat(ElementData::steam_element(), -50_000);
    assert_eq!(steam_tick(edge, 999).element_data.cell_type, CellType::Steam);
    assert_eq!(steam_tick(edge, 0).element_data.cell_type, CellType::Water);
}

#[test]
fn fire_decays_and_dies_below_zero() {
    let fire = with_heat(ElementData::fire_element(5), 123);
    for decay in 1..=5 {
        let next = flame_tick(fire, decay);
        assert_eq!(next.element_data.cell_type, CellType::Fire);
        assert_eq!(next.element_data.lifetime, 5 - decay);
        assert_eq!(next.heat_value, 1_000_000);
    }
    let low = with_heat(ElementData::fire_element(2), 0);
    assert_eq!(flame_tick(low, 2).element_data.cell_type, CellType::Fire);
    assert_eq!(flame_tick(low, 2).element_data.lifetime, 0);
    let dead = flame_tick(low, 3);
    assert_eq!(dead.element_data.cell_type, CellType::Air);
    assert_eq!(dead.element_data.lifetime, -1);
    assert_eq!(dead.element_data.state, State::Gas);
    assert_eq!(dead.heat_value, 1_000_000);
}

#[test]
fn cold_fire_decays_like_fire() {
    let cold = with_heat(ElementData::coldfire_element(80), 0);
    let next = flame_tick(cold, 4);
    assert_eq!(next.element_data.cell_type, CellType::ColdFire);
    assert_eq!(next.element_data.lifetime, 76);
    assert_eq!(next.heat_value, -1_000_000);
    let dead = flame_tick(with_heat(ElementData::coldfire_element(0), 0), 1);
    assert_eq!(dead.element_data.cell_type, CellType::Air);
    assert_eq!(dead.heat_value, -1_000_000);
}

#[test]
fn a_flame_at_the_least_lifetime_dies() {
    let fire = with_heat(ElementData::fire_element(i16::MIN), 0);
    assert_eq!(flame_tick(fire, 5).element_data.cell_type, CellType::Air);
}

#[test]
fn coal_kindles_above_its_flash_point() {
    let coal = fuel(CellType::Coal).unwrap();
    let hot = kindle(with_heat(ElementData::coal_element(), 400_001), &coal);
    assert!(hot.active);
    assert_eq!(hot.element_data.lifetime, 500);
    assert_eq!(hot.element_data.color, (50, 30, 29, 255));
    assert_eq!(hot.element_data.color, CHARRED);
    assert_eq!(hot.element_data.cell_type, CellType::Coal);
    let edge = kindle(with_heat(ElementData::coal_element(), 400_000), &coal);
    assert!(!edge.active);
    assert_eq!(edge.element_data.lifetime, -1);
    assert_eq!(edge.element_data.color, (30, 30, 29, 255));
}

#[test]
fn gasoline_kindles_without_charring() {
    let gasoline = fuel(CellType::Gasoline).unwrap();
    let hot = kindle(with_heat(ElementData::gasoline_element(), 250_001), &gasoline);
    assert!(hot.active);
    assert_eq!(hot.element_data.lifetime, 120);
    assert_eq!(hot.element_data.color, (220, 207, 61, 255));
}

#[test]
fn a_burning_cell_is_not_kindled_again() {
    let dust = fuel(CellType::SawDust).unwrap();
    let mut burning = with_heat(ElementData::sawdust_element(), 900_000);
    burning.active = true;
    burning.element_data.lifetime = 17;
    let next = kindle(burning, &dust);
    assert!(next.active);
    assert_eq!(next.element_data.lifetime, 17);
    assert_eq!(next.element_data.color, (219, 199, 120, 255));
}

#[test]
fn burning_wears_the_lifetime_down() {
    let mut burning = with_heat(ElementData::coal_element(), 0);
    burning.active = true;
    burning.element_data.lifetime = 1;
    let next = smoulder(burning, 2);
    assert_eq!(next.element_data.lifetime, -1);
    assert!(next.active);
    assert_eq!(next.element_data.cell_type, CellType::Coal);
    let out = burn_out(next);
    assert_eq!(out.element_data.cell_type, CellType::Air);
    assert!(!out.active);
    let still = burn_out(smoulder(burning, 1));
    assert_eq!(still.element_data.cell_type, CellType::Coal);
    assert_eq!(still.element_data.lifetime, 0);
    assert!(still.active);
}

#[test]
fn a_cell_that_never_burned_is_not_spent() {
    let idle = with_heat(ElementData::coal_element(), 0);
    let out = burn_out(idle);
    assert_eq!(out.element_data.cell_type, CellType::Coal);
    assert_eq!(out.element_data.lifetime, -1);
}

#[test]
fn lava_holds_its_heat() {
    let lava = lava_tick(with_heat(ElementData::lava_element(), 5));
    assert_eq!(lava.heat_value, 2_000_000);
    assert_eq!(lava.element_data.cell_type, CellType::Lava);
}

#[test]
fn ice_cools_itself_and_thaws_by_chance() {
    let ice = with_heat(ElementData::ice_element(), 0);
    assert_eq!(cool_ice(ice).heat_value, -8000);
    let thawed = ice_tick(ice, 99);
    assert_eq!(thawed.element_data.cell_type, CellType::Water);
    assert_eq!(thawed.heat_value, -8000);
    let kept = ice_tick(ice, 100);
    assert_eq!(kept.element_data.cell_type, CellType::Ice);
    assert_eq!(kept.heat_value, -8000);
}

#[test]
fn cold_ice_does_not_thaw() {
    let edge = with_heat(ElementData::ice_element(), -92_000);
    assert_eq!(ice_tick(edge, 0).element_data.cell_type, CellType::Ice);
    assert_eq!(ice_tick(edge, 0).heat_value, -100_000);
    let above = with_heat(ElementData::ice_element(), -91_999);
    assert_eq!(ice_tick(above, 0).element_data.cell_type, CellType::Water);
    let bottom = with_heat(ElementData::ice_element(), i32::MIN + 5);
    assert_eq!(cool_ice(bottom).heat_value, i32::MIN);
}
