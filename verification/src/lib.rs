//! A single-screen terminal maze toy: a fixed 80x32 grid of terrain tiles is
//! generated by a per-cell weighted random draw, and a player moves a cursor
//! around it, reacting to hazards, portals and a single win tile.
//!
//! This crate holds the verified logic: the terrain model, the map generator,
//! and the movement/session rules. Terminal rendering and key handling live
//! outside it.

pub mod game;
pub mod map;
mod rng;
pub mod terrain;

pub use game::Game;
pub use game::GameView;
pub use game::MoveEvent;
pub use game::SessionState;
pub use game::START_LIVES;
pub use map::DIVIDER_ROW;
pub use map::HEIGHT;
pub use map::GameMap;
pub use map::MapView;
pub use map::PortalEntry;
pub use map::terrain_for_roll;
pub use map::START_X;
pub use map::START_Y;
pub use map::WIDTH;
pub use terrain::Terrain;
