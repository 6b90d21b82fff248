//! The map: a fixed 80x32 grid of terrain, generated by a per-cell weighted
//! random draw, together with the portal registry recorded during generation.

use vstd::prelude::*;
use crate::rng;
use crate::terrain::Terrain;

verus! {

/// Number of columns in the grid.
pub const WIDTH: usize = 80;
/// Number of rows in the grid.
pub const HEIGHT: usize = 32;
/// The row just above the playable window. The rows above it are reserved for
/// the header; this row is generated as solid wall, like the outer border.
pub const DIVIDER_ROW: usize = 11;
/// The column the player starts in.
pub const START_X: usize = 1;
/// The row the player starts in: the first playable row under the divider.
pub const START_Y: usize = 12;

/// One portal registry entry: ((source column, source row),
/// (destination column, destination row)).
pub type PortalEntry = ((usize, usize), (usize, usize));

/// Whether (x, y) lies on the grid.
pub open spec fn in_grid(x: int, y: int) -> bool {
    0 <= x < WIDTH && 0 <= y < HEIGHT
}

/// The cells that are always wall: the outer border and the divider row.
pub open spec fn is_border(x: int, y: int) -> bool {
    x == 0 || x == WIDTH - 1 || y == 0 || y == DIVIDER_ROW || y == HEIGHT - 1
}

/// The grid has exactly HEIGHT rows of exactly WIDTH cells each.
pub open spec fn grid_dims_ok(g: Seq<Seq<Terrain>>) -> bool {
    &&& g.len() == HEIGHT
    &&& forall|y: int| 0 <= y < HEIGHT ==> (#[trigger] g[y]).len() == WIDTH
}

/// Every border cell of the grid is wall.
pub open spec fn grid_borders_ok(g: Seq<Seq<Terrain>>) -> bool {
    forall|x: int, y: int|
        in_grid(x, y) && is_border(x, y) ==> #[trigger] g[y][x] == Terrain::Wall
}

/// A well-formed grid: the fixed dimensions, with a wall border.
pub open spec fn grid_ok(g: Seq<Seq<Terrain>>) -> bool {
    grid_dims_ok(g) && grid_borders_ok(g)
}

/// The grid holds the key at (kx, ky) and nowhere else.
pub open spec fn sole_key(g: Seq<Seq<Terrain>>, kx: int, ky: int) -> bool {
    &&& in_grid(kx, ky)
    &&& g[ky][kx] == Terrain::Key
    &&& forall|x: int, y: int|
        in_grid(x, y) && (#[trigger] g[y][x]) == Terrain::Key ==> x == kx && y == ky
}

/// The grid holds exactly one key cell.
pub open spec fn has_unique_key(g: Seq<Seq<Terrain>>) -> bool {
    exists|kx: int, ky: int| sole_key(g, kx, ky)
}

/// What generation guarantees of each registry entry: the source is an
/// interior (non-border) cell, the destination lies in the playable window,
/// and the destination differs from the source.
pub open spec fn portal_entry_ok(e: PortalEntry) -> bool {
    &&& 1 <= e.0.0 < WIDTH - 1
    &&& 1 <= e.0.1 < HEIGHT - 1
    &&& e.0.1 != DIVIDER_ROW
    &&& 1 <= e.1.0 < WIDTH - 1
    &&& START_Y <= e.1.1 < HEIGHT
    &&& e.1 != e.0
}

/// Every registry entry satisfies `portal_entry_ok`.
pub open spec fn portals_ok(entries: Seq<PortalEntry>) -> bool {
    forall|i: int| 0 <= i < entries.len() ==> portal_entry_ok(#[trigger] entries[i])
}

/// The bounds a portal destination must satisfy before it is taken, and the
/// demand that it differ from the cell the player stands on. The ranges are
/// deliberately one wider than the grid on their upper edges (column up to
/// WIDTH, row up to HEIGHT, both inclusive): a taken destination may sit one
/// past the playable window.
pub open spec fn portal_dest_allowed(dest: (usize, usize), x: int, y: int) -> bool {
    &&& 1 <= dest.0 <= WIDTH
    &&& START_Y <= dest.1 <= HEIGHT
    &&& !(dest.0 == x && dest.1 == y)
}

/// Whether the i-th registry entry teleports a player standing at (x, y):
/// its source is that cell and its destination is allowed there.
pub open spec fn portal_hit(entries: Seq<PortalEntry>, i: int, x: int, y: int) -> bool {
    &&& entries[i].0.0 == x
    &&& entries[i].0.1 == y
    &&& portal_dest_allowed(entries[i].1, x, y)
}

/// The destination of the first registry entry at or after position i that
/// teleports a player standing at (x, y), if any.
pub open spec fn find_portal_from(
    entries: Seq<PortalEntry>,
    i: int,
    x: int,
    y: int,
) -> Option<(usize, usize)>
    decreases entries.len() - i,
{
    if i < 0 || i >= entries.len() {
        None
    } else if portal_hit(entries, i, x, y) {
        Some(entries[i].1)
    } else {
        find_portal_from(entries, i + 1, x, y)
    }
}

/// The destination the registry sends a player standing at (x, y) to: that of
/// the first entry whose source is (x, y) and whose destination is allowed
/// there, or nothing when no entry qualifies.
pub open spec fn find_portal(entries: Seq<PortalEntry>, x: int, y: int) -> Option<(usize, usize)> {
    find_portal_from(entries, 0, x, y)
}

/// A destination the registry hands out was checked: it satisfies
/// `portal_dest_allowed` at the cell it was looked up for.
pub proof fn lemma_find_portal_from_allowed(entries: Seq<PortalEntry>, i: int, x: int, y: int)
    ensures
        find_portal_from(entries, i, x, y) matches Some(d) ==> portal_dest_allowed(d, x, y),
    decreases entries.len() - i,
{
    if 0 <= i < entries.len() && !portal_hit(entries, i, x, y) {
        lemma_find_portal_from_allowed(entries, i + 1, x, y);
    }
}

/// The mathematical content of a map: the grid of terrain kinds and the
/// portal registry.
#[verifier::ext_equal]
pub struct MapView {
    pub grid: Seq<Seq<Terrain>>,
    pub portals: Seq<PortalEntry>,
}

impl MapView {
    /// The terrain at column x, row y.
    pub open spec fn cell(self, x: int, y: int) -> Terrain {
        self.grid[y][x]
    }

    /// A well-formed map: fixed dimensions with a wall border.
    pub open spec fn wf(self) -> bool {
        grid_ok(self.grid)
    }
}

/// The rows of the grid, each as a sequence of terrain kinds.
pub open spec fn rows_view(cells: Seq<Vec<Terrain>>) -> Seq<Seq<Terrain>> {
    cells.map_values(|r: Vec<Terrain>| r@)
}

/// A generated map: the terrain grid and the portal registry recorded while
/// the grid was drawn.
pub struct GameMap {
    cells: Vec<Vec<Terrain>>,
    portals: Vec<PortalEntry>,
}

impl View for GameMap {
    type V = MapView;

    closed spec fn view(&self) -> MapView {
        MapView { grid: rows_view(self.cells@), portals: self.portals@ }
    }
}

/// Maps a uniform draw in [0, 100) to a terrain kind with the fixed weights:
/// 70% floor, 10% grass, 5% water, 2% lava, 3% portal, 10% wall.
pub open spec fn spec_terrain_for_roll(roll: int) -> Terrain {
    if roll < 70 {
        Terrain::Floor
    } else if roll < 80 {
        Terrain::Grass
    } else if roll < 85 {
        Terrain::Water
    } else if roll < 87 {
        Terrain::Lava
    } else if roll < 90 {
        Terrain::Portal
    } else {
        Terrain::Wall
    }
}

/// The terrain kind an interior cell gets for a uniform draw in [0, 100).
pub fn terrain_for_roll(roll: usize) -> (t: Terrain)
    ensures
        t == spec_terrain_for_roll(roll as int),
{
    if roll < 70 {
        Terrain::Floor
    } else if roll < 80 {
        Terrain::Grass
    } else if roll < 85 {
        Terrain::Water
    } else if roll < 87 {
        Terrain::Lava
    } else if roll < 90 {
        Terrain::Portal
    } else {
        Terrain::Wall
    }
}

impl GameMap {
    /// Generates a fresh map: border and divider cells are wall, every other
    /// cell is drawn independently from the fixed terrain weights, one interior
    /// cell of the playable window is then overwritten with the key, and each
    /// portal cell whose drawn destination differs from the cell itself gets a
    /// registry entry.
    pub fn generate() -> (m: GameMap)
        ensures
            m@.wf(),
            has_unique_key(m@.grid),
            exists|kx: int, ky: int|
                sole_key(m@.grid, kx, ky) && 1 <= kx < WIDTH - 1 && START_Y <= ky < HEIGHT - 1,
            portals_ok(m@.portals),
    {
        let kx = rng::rand_range(1, WIDTH - 1);
        let ky = rng::rand_range(START_Y, HEIGHT - 1);
        let mut cells: Vec<Vec<Terrain>> = Vec::new();
        let mut portals: Vec<PortalEntry> = Vec::new();
        let mut y: usize = 0;
        while y < HEIGHT
            invariant
                y <= HEIGHT,
                1 <= kx < WIDTH - 1,
                START_Y <= ky < HEIGHT - 1,
                cells@.len() == y,
                forall|r: int| 0 <= r < y ==> (#[trigger] cells@[r])@.len() == WIDTH,
                forall|xx: int, r: int|
                    0 <= xx < WIDTH && 0 <= r < y && is_border(xx, r)
                        ==> (#[trigger] cells@[r]@[xx]) == Terrain::Wall,
                forall|xx: int, r: int|
                    0 <= xx < WIDTH && 0 <= r < y
                        ==> ((#[trigger] cells@[r]@[xx]) == Terrain::Key
                            <==> (xx == kx && r == ky)),
                portals_ok(portals@),
            decreases HEIGHT - y,
        {
            let mut row: Vec<Terrain> = Vec::new();
            let mut x: usize = 0;
            while x < WIDTH
                invariant
                    x <= WIDTH,
                    y < HEIGHT,
                    1 <= kx < WIDTH - 1,
                    START_Y <= ky < HEIGHT - 1,
                    row@.len() == x,
                    forall|xx: int|
                        0 <= xx < x && is_border(xx, y as int)
                            ==> (#[trigger] row@[xx]) == Terrain::Wall,
                    forall|xx: int|
                        0 <= xx < x
                            ==> ((#[trigger] row@[xx]) == Terrain::Key
                                <==> (xx == kx && y == ky)),
                    portals_ok(portals@),
                decreases WIDTH - x,
            {
                if y == 0 || y == DIVIDER_ROW || y == HEIGHT - 1 || x == 0 || x == WIDTH - 1 {
                    row.push(Terrain::Wall);
                } else {
                    let roll = rng::rand_range(0, 100);
                    let t = terrain_for_roll(roll);
                    if t == Terrain::Portal {
                        let dest_x = rng::rand_range(1, WIDTH - 1);
                        let dest_y = rng::rand_range(START_Y, HEIGHT);
                        if !(dest_x == x && dest_y == y) {
                            portals.push(((x, y), (dest_x, dest_y)));
                        }
                    }
                    if x == kx && y == ky {
                        row.push(Terrain::Key);
                    } else {
                        row.push(t);
                    }
                }
                x = x + 1;
            }
            cells.push(row);
            y = y + 1;
        }
        let m = GameMap { cells, portals };
        proof {
            assert(m@.grid[ky as int][kx as int] == Terrain::Key);
            assert(sole_key(m@.grid, kx as int, ky as int));
        }
        m
    }

    /// The terrain at column x, row y.
    pub fn terrain_at(&self, x: usize, y: usize) -> (t: Terrain)
        requires
            self@.wf(),
            x < WIDTH,
            y < HEIGHT,
        ensures
            t == self@.cell(x as int, y as int),
    {
        let row = &self.cells[y];
        row[x]
    }

    /// Builds a map from a given grid and portal registry. Returns the map
    /// exactly when the grid has the fixed dimensions and a wall border; the
    /// registry is taken as given, since the movement rule re-checks each
    /// destination before taking it.
    pub fn from_grid(cells: Vec<Vec<Terrain>>, portals: Vec<PortalEntry>) -> (r: Option<GameMap>)
        ensures
            r is Some <==> grid_ok(rows_view(cells@)),
            r matches Some(m) ==> m@.grid == rows_view(cells@) && m@.portals == portals@,
    {
        let ghost g = rows_view(cells@);
        if cells.len() != HEIGHT {
            return None;
        }
        let mut y: usize = 0;
        while y < HEIGHT
            invariant
                y <= HEIGHT,
                g == rows_view(cells@),
                cells@.len() == HEIGHT,
                forall|r: int| 0 <= r < y ==> (#[trigger] g[r]).len() == WIDTH,
                forall|xx: int, r: int|
                    0 <= xx < WIDTH && 0 <= r < y && is_border(xx, r)
                        ==> (#[trigger] g[r][xx]) == Terrain::Wall,
            decreases HEIGHT - y,
        {
            let row = &cells[y];
            if row.len() != WIDTH {
                proof {
                    assert(g[y as int].len() != WIDTH);
                }
                return None;
            }
            let mut x: usize = 0;
            while x < WIDTH
                invariant
                    x <= WIDTH,
                    y < HEIGHT,
                    g == rows_view(cells@),
                    cells@.len() == HEIGHT,
                    row == cells@[y as int],
                    row@.len() == WIDTH,
                    forall|xx: int|
                        0 <= xx < x && is_border(xx, y as int)
                            ==> (#[trigger] g[y as int][xx]) == Terrain::Wall,
                decreases WIDTH - x,
            {
                if (y == 0 || y == DIVIDER_ROW || y == HEIGHT - 1 || x == 0 || x == WIDTH - 1)
                    && row[x] != Terrain::Wall {
                    proof {
                        assert(g[y as int][x as int] != Terrain::Wall);
                        assert(is_border(x as int, y as int));
                    }
                    return None;
                }
                x = x + 1;
            }
            y = y + 1;
        }
        Some(GameMap { cells, portals })
    }

    /// The destination the portal registry sends a player standing at (x, y)
    /// to: that of the first entry whose source is (x, y) and whose
    /// destination passes the bounds check and differs from (x, y).
    pub fn lookup_portal(&self, x: usize, y: usize) -> (r: Option<(usize, usize)>)
        ensures
            r == find_portal(self@.portals, x as int, y as int),
    {
        let n = self.portals.len();
        let mut i: usize = 0;
        while i < n
            invariant
                i <= n,
                n == self@.portals.len(),
                find_portal(self@.portals, x as int, y as int)
                    == find_portal_from(self@.portals, i as int, x as int, y as int),
            decreases n - i,
        {
            let e = self.portals[i];
            if e.0.0 == x && e.0.1 == y {
                let d = e.1;
                if d.0 >= 1 && d.0 <= WIDTH && d.1 >= START_Y && d.1 <= HEIGHT
                    && !(d.0 == x && d.1 == y) {
                    return Some(d);
                }
            }
            i = i + 1;
        }
        None
    }

    /// The number of entries in the portal registry.
    pub fn portal_count(&self) -> (n: usize)
        ensures
            n == self@.portals.len(),
    {
        self.portals.len()
    }

    /// The i-th entry of the portal registry.
    pub fn portal_at(&self, i: usize) -> (e: PortalEntry)
        requires
            i < self@.portals.len(),
        ensures
            e == self@.portals[i as int],
    {
        self.portals[i]
    }
}

} // verus!
