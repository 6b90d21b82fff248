use tilemaze::DIVIDER_ROW;
use tilemaze::GameMap;
use tilemaze::HEIGHT;
use tilemaze::START_Y;
use tilemaze::Terrain;
use tilemaze::WIDTH;
use tilemaze::terrain_for_roll;

fn is_border(x: usize, y: usize) -> bool {
    x == 0 || x == WIDTH - 1 || y == 0 || y == DIVIDER_ROW || y == HEIGHT - 1
}

fn base_grid() -> Vec<Vec<Terrain>> {
    let mut grid = Vec::new();
    for y in 0..HEIGHT {
        let mut row = Vec::new();
        for x in 0..WIDTH {
            if is_border(x, y) {
                row.push(Terrain::Wall);
            } else {
                row.push(Terrain::Floor);
            }
        }
        grid.push(row);
    }
    grid
}

#[test]
fn generated_map_has_wall_border() {
    let m = GameMap::generate();
    for y in 0..HEIGHT {
        for x in 0..WIDTH {
            if is_border(x, y) {
                assert_eq!(m.terrain_at(x, y), Terrain::Wall);
            }
        }
    }
}

#[test]
fn generated_map_has_exactly_one_key() {
    let m = GameMap::generate();
    let mut keys = 0;
    for y in 0..HEIGHT {
        for x in 0..WIDTH {
            if m.terrain_at(x, y) == Terrain::Key {
                keys += 1;
                assert!(!is_border(x, y));
                assert!(y >= START_Y);
            }
        }
    }
    assert_eq!(keys, 1);
}

#[test]
fn generated_portal_destinations_differ_from_sources() {
    let m = GameMap::generate();
    for i in 0..m.portal_count() {
        let (src, dest) = m.portal_at(i);
        assert_ne!(src, dest);
        assert!(src.0 >= 1 && src.0 < WIDTH - 1);
        assert!(src.1 >= 1 && src.1 < HEIGHT - 1);
        assert_ne!(src.1, DIVIDER_ROW);
        assert!(dest.0 >= 1 && dest.0 < WIDTH - 1);
        assert!(dest.1 >= START_Y && dest.1 < HEIGHT);
    }
}

#[test]
fn generated_portal_sources_hold_a_portal_or_the_key() {
    let m = GameMap::generate();
    for i in 0..m.portal_count() {
        let (src, _) = m.portal_at(i);
        let t = m.terrain_at(src.0, src.1);
        assert!(t == Terrain::Portal || t == Terrain::Key);
    }
}

#[test]
fn roll_thresholds_map_to_the_fixed_weights() {
    assert_eq!(terrain_for_roll(0), Terrain::Floor);
    assert_eq!(terrain_for_roll(69), Terrain::Floor);
    assert_eq!(terrain_for_roll(70), Terrain::Grass);
    assert_eq!(terrain_for_roll(79), Terrain::Grass);
    assert_eq!(terrain_for_roll(80), Terrain::Water);
    assert_eq!(terrain_for_roll(84), Terrain::Water);
    assert_eq!(terrain_for_roll(85), Terrain::Lava);
    assert_eq!(terrain_for_roll(86), Terrain::Lava);
    assert_eq!(terrain_for_roll(87), Terrain::Portal);
    assert_eq!(terrain_for_roll(89), Terrain::Portal);
    assert_eq!(terrain_for_roll(90), Terrain::Wall);
    assert_eq!(terrain_for_roll(99), Terrain::Wall);
}

#[test]
fn terrain_glyphs() {
    assert_eq!(Terrain::Wall.glyph(), '#');
    assert_eq!(Terrain::Floor.glyph(), '.');
    assert_eq!(Terrain::Water.glyph(), '~');
    assert_eq!(Terrain::Grass.glyph(), ',');
    assert_eq!(Terrain::Lava.glyph(), '^');
    assert_eq!(Terrain::Portal.glyph(), '=');
    assert_eq!(Terrain::Key.glyph(), '?');
}

#[test]
fn from_grid_accepts_a_well_formed_grid() {
    let m = GameMap::from_grid(base_grid(), Vec::new());
    assert!(m.is_some());
    let m = m.unwrap();
    assert_eq!(m.terrain_at(0, 0), Terrain::Wall);
    assert_eq!(m.terrain_at(1, START_Y), Terrain::Floor);
    assert_eq!(m.portal_count(), 0);
}

#[test]
fn from_grid_rejects_wrong_dimensions() {
    let mut grid = base_grid();
    grid.pop();
    assert!(GameMap::from_grid(grid, Vec::new()).is_none());

    let mut grid = base_grid();
    grid[5].pop();
    assert!(GameMap::from_grid(grid, Vec::new()).is_none());
}

#[test]
fn from_grid_rejects_a_broken_border() {
    let mut grid = base_grid();
    grid[0][40] = Terrain::Floor;
    assert!(GameMap::from_grid(grid, Vec::new()).is_none());

    let mut grid = base_grid();
    grid[DIVIDER_ROW][40] = Terrain::Grass;
    assert!(GameMap::from_grid(grid, Vec::new()).is_none());
}
