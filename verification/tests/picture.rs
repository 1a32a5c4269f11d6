use falling_sand::cell::Cell;
use falling_sand::grid::CellGrid;
use falling_sand::material::{ElementData, HEAT_UNIT};
use falling_sand::picture::{shade, FULL, GLOW_STEP};

fn bordered() -> CellGrid {
    let mut grid = CellGrid::with_seed(1);
    grid.set_borders();
    grid
}

#[test]
fn an_empty_grid_shows_nothing() {
    let grid = CellGrid::new();
    assert!(grid.render().is_empty());
}

#[test]
fn the_border_shows_column_by_column() {
    let grid = bordered();
    let tiles = grid.render();
    assert_eq!(tiles.len(), 2 * 210 + 2 * 208);
    for tile in &tiles {
        assert_eq!(tile.color, (69, 62, 66, 255));
        assert!(tile.x == 0 || tile.y == 0 || tile.x == 209 || tile.y == 209);
    }
    for pair in tiles.windows(2) {
        assert!((pair[0].x, pair[0].y) < (pair[1].x, pair[1].y));
    }
    assert_eq!((tiles[0].x, tiles[0].y), (0, 0));
    assert_eq!((tiles[209].x, tiles[209].y), (0, 209));
    assert_eq!((tiles[210].x, tiles[210].y), (1, 0));
    assert_eq!((tiles[211].x, tiles[211].y), (1, 209));
    assert_eq!((tiles[835].x, tiles[835].y), (209, 209));
}

#[test]
fn painted_cells_show_in_their_colour() {
    let mut grid = bordered();
    grid.modify_cell(1, 5, Cell::new(ElementData::sand_element()), 1);
    grid.modify_cell(1, 3, Cell::new(ElementData::water_element()), 1);
    grid.modify_cell(1, 4, Cell::new(ElementData::air_element()), 1);
    let tiles = grid.render();
    assert_eq!(tiles.len(), 836 + 2);
    assert_eq!((tiles[210].x, tiles[210].y), (1, 0));
    assert_eq!((tiles[211].x, tiles[211].y, tiles[211].color), (1, 3, (18, 24, 204, 255)));
    assert_eq!((tiles[212].x, tiles[212].y, tiles[212].color), (1, 5, (243, 239, 118, 255)));
    assert_eq!((tiles[213].x, tiles[213].y), (1, 209));
}

#[test]
fn a_colour_shows_unless_fully_transparent() {
    let mut grid = CellGrid::new();
    let mut faint = ElementData::air_element();
    faint.color = (0, 0, 0, 1);
    grid.modify_cell(3, 3, Cell::new(faint), 1);
    let mut clear = ElementData::sand_element();
    clear.color = (243, 239, 118, 0);
    grid.modify_cell(4, 4, Cell::new(clear), 1);
    let tiles = grid.render();
    assert_eq!(tiles.len(), 1);
    assert_eq!((tiles[0].x, tiles[0].y, tiles[0].color), (3, 3, (0, 0, 0, 1)));
}

#[test]
fn shades_of_heat() {
    assert_eq!(FULL, 1000);
    assert_eq!(GLOW_STEP, 2000);
    let zero = shade(1, 2, 0);
    assert_eq!((zero.x, zero.y), (1, 2));
    assert_eq!((zero.red, zero.green, zero.blue), (0, 1000, 0));
    let warm = shade(0, 0, 500 * HEAT_UNIT);
    assert_eq!((warm.red, warm.green, warm.blue), (250, 750, 0));
    let hot = shade(0, 0, 2000 * HEAT_UNIT);
    assert_eq!((hot.red, hot.green, hot.blue), (1000, 0, 0));
    let hotter = shade(0, 0, 3000 * HEAT_UNIT);
    assert_eq!((hotter.red, hotter.green, hotter.blue), (1500, -500, 0));
    let cool = shade(0, 0, -1000 * HEAT_UNIT);
    assert_eq!((cool.red, cool.green, cool.blue), (0, 500, 500));
    let cold = shade(0, 0, -2000 * HEAT_UNIT);
    assert_eq!((cold.red, cold.green, cold.blue), (0, 0, 1000));
    let barely = shade(0, 0, -1999);
    assert_eq!((barely.red, barely.green, barely.blue), (0, 1000, 0));
    let just = shade(0, 0, 1999);
    assert_eq!((just.red, just.green, just.blue), (0, 1000, 0));
}

#[test]
fn shades_at_the_ends_of_the_range() {
    let top = shade(0, 0, i32::MAX);
    assert_eq!((top.red, top.green, top.blue), (1_073_741, 1000 - 1_073_741, 0));
    let bottom = shade(0, 0, i32::MIN);
    assert_eq!((bottom.red, bottom.green, bottom.blue), (0, 1000 - 1_073_741, 1_073_741));
}

#[test]
fn the_heat_map_covers_every_cell() {
    let mut grid = bordered();
    let mut hot = Cell::new(ElementData::sand_element());
    hot.heat_value = 500 * HEAT_UNIT;
    grid.modify_cell(2, 7, hot, 1);
    let mut cold = Cell::new(ElementData::air_element());
    cold.heat_value = -1000 * HEAT_UNIT;
    grid.modify_cell(208, 208, cold, 1);
    let map = grid.render_heatmap();
    assert_eq!(map.len(), 210 * 210);
    for (k, s) in map.iter().enumerate() {
        assert_eq!(s.x as usize, k / 210);
        assert_eq!(s.y as usize, k % 210);
        let expected = if (s.x, s.y) == (2, 7) {
            (250, 750, 0)
        } else if (s.x, s.y) == (208, 208) {
            (0, 500, 500)
        } else {
            (0, 1000, 0)
        };
        assert_eq!((s.red, s.green, s.blue), expected);
    }
}
