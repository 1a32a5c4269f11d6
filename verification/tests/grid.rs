use falling_sand::cell::Cell;
use falling_sand::grid::CellGrid;
use falling_sand::material::{CellType, ElementData, HEAT_UNIT};
use falling_sand::model::{COLS, ROWS};

fn kind_at(grid: &CellGrid, x: i32, y: i32) -> CellType {
    grid.get_element_on_mouse(x, y).unwrap()
}

fn bordered(seed: u64) -> CellGrid {
    let mut grid = CellGrid::with_seed(seed);
    grid.set_borders();
    grid
}

fn border_is_solid(grid: &CellGrid) -> bool {
    for x in 0..COLS {
        for y in 0..ROWS {
            let on_border = x == 0 || y == 0 || x == COLS - 1 || y == ROWS - 1;
            if on_border && kind_at(grid, x, y) != CellType::Solid {
                return false;
            }
        }
    }
    true
}

#[test]
fn new_grid_is_air() {
    let grid = CellGrid::new();
    for x in 0..COLS {
        for y in 0..ROWS {
            let cell = grid.get_cell(x, y).unwrap();
            assert_eq!(cell.element_data.cell_type, CellType::Air);
            assert_eq!(cell.heat_value, 0);
            assert!(!cell.active);
        }
    }
    assert_eq!(*grid.num_of_swaps(), 0);
}

#[test]
fn set_borders_fills_the_ring_only() {
    let grid = bordered(1);
    for x in 0..COLS {
        for y in 0..ROWS {
            let on_border = x == 0 || y == 0 || x == COLS - 1 || y == ROWS - 1;
            let expected = if on_border { CellType::Solid } else { CellType::Air };
            assert_eq!(kind_at(&grid, x, y), expected);
        }
    }
}

#[test]
fn query_outside_the_grid_is_none() {
    let grid = bordered(1);
    assert_eq!(grid.get_element_on_mouse(-1, 0), None);
    assert_eq!(grid.get_element_on_mouse(0, -1), None);
    assert_eq!(grid.get_element_on_mouse(COLS, 0), None);
    assert_eq!(grid.get_element_on_mouse(0, ROWS), None);
    assert_eq!(grid.get_element_on_mouse(i32::MAX, i32::MIN), None);
    assert_eq!(grid.get_element_on_mouse(0, 0), Some(CellType::Solid));
    assert_eq!(grid.get_element_on_mouse(COLS - 1, ROWS - 1), Some(CellType::Solid));
    assert_eq!(grid.get_element_on_mouse(1, 1), Some(CellType::Air));
    assert!(grid.get_cell(COLS, 0).is_none());
}

#[test]
fn border_survives_many_ticks() {
    let mut grid = bordered(7);
    grid.modify_cell(20, 150, Cell::new(ElementData::water_element()), 30);
    grid.modify_cell(60, 150, Cell::new(ElementData::sand_element()), 30);
    grid.modify_cell(100, 100, Cell::new(ElementData::lava_element()), 20);
    grid.modify_cell(100, 130, Cell::new(ElementData::gasoline_element()), 20);
    grid.modify_cell(140, 20, Cell::new(ElementData::methane_element()), 30);
    grid.modify_cell(140, 60, Cell::new(ElementData::fire_element(80)), 10);
    grid.modify_cell(1, 1, Cell::new(ElementData::steam_element()), 10);
    grid.modify_cell(198, 198, Cell::new(ElementData::coldfire_element(80)), 11);
    grid.modify_cell(170, 100, Cell::new(ElementData::sawdust_element()), 20);
    grid.modify_cell(170, 80, Cell::new(ElementData::coal_element()), 20);
    grid.modify_cell(30, 30, Cell::new(ElementData::ice_element()), 20);
    for _ in 0..60 {
        grid.update();
        assert!(border_is_solid(&grid));
    }
}

#[test]
fn sand_falls_to_the_floor() {
    let mut grid = bordered(3);
    grid.modify_cell(50, 40, Cell::new(ElementData::sand_element()), 1);
    for tick in 1..40 {
        grid.update();
        assert_eq!(*grid.num_of_swaps(), 1);
        assert_eq!(kind_at(&grid, 50, 40 - tick), CellType::Sand);
        assert_eq!(kind_at(&grid, 50, 40 - tick + 1), CellType::Air);
    }
    assert_eq!(kind_at(&grid, 50, 1), CellType::Sand);
    for _ in 0..5 {
        grid.update();
        assert_eq!(*grid.num_of_swaps(), 0);
        assert_eq!(kind_at(&grid, 50, 1), CellType::Sand);
    }
}

#[test]
fn paint_at_the_corner_is_clipped() {
    let mut grid = bordered(1);
    grid.modify_cell(0, 0, Cell::new(ElementData::sand_element()), 3);
    for x in 0..5 {
        for y in 0..5 {
            let inside = (1..=2).contains(&x) && (1..=2).contains(&y);
            let border = x == 0 || y == 0;
            let expected = if inside {
                CellType::Sand
            } else if border {
                CellType::Solid
            } else {
                CellType::Air
            };
            assert_eq!(kind_at(&grid, x, y), expected);
        }
    }
}

#[test]
fn heat_unit_is_a_thousand() {
    assert_eq!(HEAT_UNIT, 1000);
}
