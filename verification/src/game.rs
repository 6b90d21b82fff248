//! The game state and its movement rule: the player coordinate, the life
//! counter, the session state machine {Playing, Lost, Won}, and the effect of
//! one move on them.

use vstd::prelude::*;
use crate::map::GameMap;
use crate::map::HEIGHT;
use crate::map::MapView;
use crate::map::START_X;
use crate::map::START_Y;
use crate::map::WIDTH;
use crate::map::find_portal;
use crate::map::has_unique_key;
use crate::map::portals_ok;
use crate::terrain::Terrain;
use crate::terrain::spec_glyph;

verus! {

/// The number of lives a fresh session starts with.
pub const START_LIVES: u32 = 3;

/// Where a session stands. Playing is the only state moves act in; Lost and
/// Won are terminal, left only by regenerating.
#[derive(Clone, Copy, PartialEq, Eq, Structural, Debug)]
pub enum SessionState {
    Playing,
    Lost,
    Won,
}

/// What one move attempt did, for the caller to report.
#[derive(Clone, Copy, PartialEq, Eq, Structural, Debug)]
pub enum MoveEvent {
    /// The session was already over; nothing changed.
    Inactive,
    /// The candidate cell lies outside the grid; nothing changed.
    OutOfBounds,
    /// The candidate cell is wall; the move was reverted.
    Blocked,
    /// The player stands on the candidate cell with no further effect.
    Stepped,
    /// The player fell into water or lava, lost a life, and was put back at
    /// the start coordinate.
    Fell,
    /// The player fell into water or lava with the last life; the session is
    /// lost.
    Lost,
    /// A portal sent the player to its recorded destination.
    Teleported,
    /// The player reached the key; the session is won.
    Won,
}

/// The mathematical content of a game state.
#[verifier::ext_equal]
pub struct GameView {
    pub map: MapView,
    pub player_x: int,
    pub player_y: int,
    pub lives: int,
    pub state: SessionState,
}

/// The four unit deltas a move may use.
pub open spec fn is_unit_delta(dx: int, dy: int) -> bool {
    ||| (dx == -1 && dy == 0)
    ||| (dx == 1 && dy == 0)
    ||| (dx == 0 && dy == -1)
    ||| (dx == 0 && dy == 1)
}

/// The exact result of one move attempt: the state after it and the event it
/// reports, as a function of the state before it and the delta.
pub open spec fn move_result(pre: GameView, dx: int, dy: int) -> (GameView, MoveEvent) {
    if pre.state != SessionState::Playing {
        (pre, MoveEvent::Inactive)
    } else {
        let nx: int = pre.player_x + dx;
        let ny: int = pre.player_y + dy;
        if !(0 <= nx < WIDTH && 0 <= ny < HEIGHT) {
            (pre, MoveEvent::OutOfBounds)
        } else {
            match pre.map.cell(nx, ny) {
                Terrain::Wall => (pre, MoveEvent::Blocked),
                Terrain::Floor => (GameView { player_x: nx, player_y: ny, ..pre }, MoveEvent::Stepped),
                Terrain::Grass => (GameView { player_x: nx, player_y: ny, ..pre }, MoveEvent::Stepped),
                Terrain::Water => hazard_result(pre, nx, ny),
                Terrain::Lava => hazard_result(pre, nx, ny),
                Terrain::Portal => match find_portal(pre.map.portals, nx, ny) {
                    Some(d) => (
                        GameView { player_x: d.0 as int, player_y: d.1 as int, ..pre },
                        MoveEvent::Teleported,
                    ),
                    None => (GameView { player_x: nx, player_y: ny, ..pre }, MoveEvent::Stepped),
                },
                Terrain::Key => (
                    GameView { player_x: nx, player_y: ny, state: SessionState::Won, ..pre },
                    MoveEvent::Won,
                ),
            }
        }
    }
}

/// The effect of stepping onto water or lava at (nx, ny): one life is lost;
/// with lives left the player is put back at the start coordinate, with none
/// the session is lost on the hazard cell.
pub open spec fn hazard_result(pre: GameView, nx: int, ny: int) -> (GameView, MoveEvent) {
    if pre.lives > 1 {
        (
            GameView {
                player_x: START_X as int,
                player_y: START_Y as int,
                lives: pre.lives - 1,
                ..pre
            },
            MoveEvent::Fell,
        )
    } else {
        (
            GameView {
                player_x: nx,
                player_y: ny,
                lives: 0,
                state: SessionState::Lost,
                ..pre
            },
            MoveEvent::Lost,
        )
    }
}

/// An out-of-bounds move attempt changes nothing: when the candidate cell
/// lies outside the grid, the state after the move is the state before it.
pub proof fn lemma_out_of_bounds_is_no_op(pre: GameView, dx: int, dy: int)
    requires
        !(0 <= pre.player_x + dx < WIDTH && 0 <= pre.player_y + dy < HEIGHT),
    ensures
        move_result(pre, dx, dy).0 == pre,
{
}

/// Moving into a wall cell changes nothing: the move is reverted, and the
/// player coordinate, lives and session state stand as before.
pub proof fn lemma_wall_blocks(pre: GameView, dx: int, dy: int)
    requires
        0 <= pre.player_x + dx < WIDTH,
        0 <= pre.player_y + dy < HEIGHT,
        pre.map.cell(pre.player_x + dx, pre.player_y + dy) == Terrain::Wall,
    ensures
        move_result(pre, dx, dy).0 == pre,
{
}

/// Moving into water or lava while playing costs exactly one life: with more
/// than one life left the player is reset to the start coordinate and play
/// goes on, with exactly one the session ends as a loss with zero lives.
pub proof fn lemma_hazard_costs_a_life(pre: GameView, dx: int, dy: int)
    requires
        pre.state == SessionState::Playing,
        pre.lives >= 1,
        0 <= pre.player_x + dx < WIDTH,
        0 <= pre.player_y + dy < HEIGHT,
        pre.map.cell(pre.player_x + dx, pre.player_y + dy) == Terrain::Water
            || pre.map.cell(pre.player_x + dx, pre.player_y + dy) == Terrain::Lava,
    ensures
        move_result(pre, dx, dy).0.lives == pre.lives - 1,
        pre.lives > 1 ==> {
            &&& move_result(pre, dx, dy).0.player_x == START_X
            &&& move_result(pre, dx, dy).0.player_y == START_Y
            &&& move_result(pre, dx, dy).0.state == SessionState::Playing
            &&& move_result(pre, dx, dy).1 == MoveEvent::Fell
        },
        pre.lives == 1 ==> {
            &&& move_result(pre, dx, dy).0.lives == 0
            &&& move_result(pre, dx, dy).0.state == SessionState::Lost
            &&& move_result(pre, dx, dy).1 == MoveEvent::Lost
        },
{
}

/// Moving into the key cell while playing wins the session, whatever the
/// lives left.
pub proof fn lemma_key_wins(pre: GameView, dx: int, dy: int)
    requires
        pre.state == SessionState::Playing,
        0 <= pre.player_x + dx < WIDTH,
        0 <= pre.player_y + dy < HEIGHT,
        pre.map.cell(pre.player_x + dx, pre.player_y + dy) == Terrain::Key,
    ensures
        move_result(pre, dx, dy).0.state == SessionState::Won,
        move_result(pre, dx, dy).1 == MoveEvent::Won,
{
}

/// The glyph drawn at column x, row y: the player glyph on the player's cell,
/// the cell's terrain glyph everywhere else.
pub open spec fn spec_cell_glyph(g: GameView, x: int, y: int) -> char {
    if x == g.player_x && y == g.player_y {
        '@'
    } else {
        spec_glyph(g.map.cell(x, y))
    }
}

/// One session: the map, the player coordinate, the lives left, and where the
/// session stands.
pub struct Game {
    map: GameMap,
    player_x: usize,
    player_y: usize,
    lives: u32,
    state: SessionState,
}

impl View for Game {
    type V = GameView;

    closed spec fn view(&self) -> GameView {
        GameView {
            map: self.map@,
            player_x: self.player_x as int,
            player_y: self.player_y as int,
            lives: self.lives as int,
            state: self.state,
        }
    }
}

impl Game {
    /// A well-formed game: the map is well formed, the player coordinate may
    /// exceed the grid by at most one on each axis (a taken portal destination
    /// may sit one past the playable window), and a session still being played
    /// has a life left.
    pub open spec fn wf(self) -> bool {
        &&& self@.map.wf()
        &&& 0 <= self@.player_x <= WIDTH
        &&& 0 <= self@.player_y <= HEIGHT
        &&& 0 <= self@.lives
        &&& self@.state == SessionState::Playing ==> self@.lives >= 1
    }

    /// A fresh session: a newly generated map, the player at the start
    /// coordinate, the full life count, and the session being played.
    pub fn new() -> (g: Game)
        ensures
            g.wf(),
            has_unique_key(g@.map.grid),
            portals_ok(g@.map.portals),
            g@.player_x == START_X,
            g@.player_y == START_Y,
            g@.lives == START_LIVES,
            g@.state == SessionState::Playing,
    {
        Game {
            map: GameMap::generate(),
            player_x: START_X,
            player_y: START_Y,
            lives: START_LIVES,
            state: SessionState::Playing,
        }
    }

    /// A session on a given map with a given life count, the player at the
    /// start coordinate. Returns the session exactly when at least one life is
    /// given.
    pub fn new_session(map: GameMap, lives: u32) -> (r: Option<Game>)
        requires
            map@.wf(),
        ensures
            r is Some <==> lives >= 1,
            r matches Some(g) ==> {
                &&& g.wf()
                &&& g@.map == map@
                &&& g@.player_x == START_X
                &&& g@.player_y == START_Y
                &&& g@.lives == lives
                &&& g@.state == SessionState::Playing
            },
    {
        if lives == 0 {
            None
        } else {
            Some(Game {
                map,
                player_x: START_X,
                player_y: START_Y,
                lives,
                state: SessionState::Playing,
            })
        }
    }

    /// Discards the session and starts a fresh one on a newly generated map:
    /// the player back at the start coordinate, the full life count, and the
    /// session being played again, whatever state it was in.
    pub fn regenerate(&mut self)
        ensures
            final(self).wf(),
            has_unique_key(final(self)@.map.grid),
            portals_ok(final(self)@.map.portals),
            final(self)@.player_x == START_X,
            final(self)@.player_y == START_Y,
            final(self)@.lives == START_LIVES,
            final(self)@.state == SessionState::Playing,
    {
        *self = Game::new();
    }

    /// Attempts one move by a unit delta and reports what it did. The new
    /// state and the event are exactly `move_result` of the old state and the
    /// delta.
    pub fn move_player(&mut self, dx: i32, dy: i32) -> (ev: MoveEvent)
        requires
            old(self).wf(),
            is_unit_delta(dx as int, dy as int),
        ensures
            final(self).wf(),
            final(self)@ == move_result(old(self)@, dx as int, dy as int).0,
            ev == move_result(old(self)@, dx as int, dy as int).1,
    {
        if self.state != SessionState::Playing {
            return MoveEvent::Inactive;
        }
        let nx_i: i32 = self.player_x as i32 + dx;
        let ny_i: i32 = self.player_y as i32 + dy;
        if nx_i < 0 || nx_i >= WIDTH as i32 || ny_i < 0 || ny_i >= HEIGHT as i32 {
            return MoveEvent::OutOfBounds;
        }
        let nx = nx_i as usize;
        let ny = ny_i as usize;
        match self.map.terrain_at(nx, ny) {
            Terrain::Wall => MoveEvent::Blocked,
            Terrain::Floor | Terrain::Grass => {
                self.player_x = nx;
                self.player_y = ny;
                MoveEvent::Stepped
            },
            Terrain::Water | Terrain::Lava => {
                if self.lives > 1 {
                    self.lives = self.lives - 1;
                    self.player_x = START_X;
                    self.player_y = START_Y;
                    MoveEvent::Fell
                } else {
                    self.lives = 0;
                    self.player_x = nx;
                    self.player_y = ny;
                    self.state = SessionState::Lost;
                    MoveEvent::Lost
                }
            },
            Terrain::Portal => {
                proof {
                    crate::map::lemma_find_portal_from_allowed(
                        self@.map.portals, 0, nx as int, ny as int,
                    );
                }
                match self.map.lookup_portal(nx, ny) {
                    Some(d) => {
                        self.player_x = d.0;
                        self.player_y = d.1;
                        MoveEvent::Teleported
                    },
                    None => {
                        self.player_x = nx;
                        self.player_y = ny;
                        MoveEvent::Stepped
                    },
                }
            },
            Terrain::Key => {
                self.player_x = nx;
                self.player_y = ny;
                self.state = SessionState::Won;
                MoveEvent::Won
            },
        }
    }

    /// The player's column.
    pub fn player_x(&self) -> (x: usize)
        ensures
            x == self@.player_x,
    {
        self.player_x
    }

    /// The player's row.
    pub fn player_y(&self) -> (y: usize)
        ensures
            y == self@.player_y,
    {
        self.player_y
    }

    /// The lives left.
    pub fn lives(&self) -> (n: u32)
        ensures
            n == self@.lives,
    {
        self.lives
    }

    /// Where the session stands.
    pub fn state(&self) -> (s: SessionState)
        ensures
            s == self@.state,
    {
        self.state
    }

    /// The map the session is played on.
    pub fn map(&self) -> (m: &GameMap)
        ensures
            m@ == self@.map,
    {
        &self.map
    }

    /// The glyph to draw at column x, row y: the player glyph on the player's
    /// cell, the terrain glyph everywhere else.
    pub fn cell_glyph(&self, x: usize, y: usize) -> (c: char)
        requires
            self.wf(),
            x < WIDTH,
            y < HEIGHT,
        ensures
            c == spec_cell_glyph(self@, x as int, y as int),
    {
        if x == self.player_x && y == self.player_y {
            '@'
        } else {
            self.map.terrain_at(x, y).glyph()
        }
    }
}

} // verus!
