//! The terrain model: the closed set of tile kinds a grid cell can hold, and
//! the glyph each kind is drawn with.

use vstd::prelude::*;

verus! {

/// The kind of a grid cell. Fixed once generated: visiting a cell changes the
/// player's position and lives, never the terrain.
#[derive(Clone, Copy, PartialEq, Eq, Structural, Debug)]
pub enum Terrain {
    Wall,
    Floor,
    Water,
    Grass,
    Lava,
    Portal,
    Key,
}

/// The glyph a terrain kind is drawn with.
pub open spec fn spec_glyph(t: Terrain) -> char {
    match t {
        Terrain::Wall => '#',
        Terrain::Floor => '.',
        Terrain::Water => '~',
        Terrain::Grass => ',',
        Terrain::Lava => '^',
        Terrain::Portal => '=',
        Terrain::Key => '?',
    }
}

impl Terrain {
    /// The glyph this terrain kind is drawn with.
    pub fn glyph(self) -> (c: char)
        ensures
            c == spec_glyph(self),
    {
        match self {
            Terrain::Wall => '#',
            Terrain::Floor => '.',
            Terrain::Water => '~',
            Terrain::Grass => ',',
            Terrain::Lava => '^',
            Terrain::Portal => '=',
            Terrain::Key => '?',
        }
    }
}

} // verus!
