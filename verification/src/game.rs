//! The game: an arena, its grid and the two players, advanced in fixed
//! ticks. A tick moves both players, then resolves red's collisions, then
//! blue's.

use vstd::prelude::*;
use crate::arena::Arena;
use crate::arena::ConfigError;
use crate::arena::SUBUNITS;
use crate::arena::half_span;
use crate::collision::check_collider;
use crate::collision::owners_after_cells;
use crate::collision::player_after_cells;
use crate::collision::player_after_walls;
use crate::grid::BrickColor;
use crate::grid::Grid;
use crate::grid::count_owned;
use crate::grid::initial_owners;
use crate::grid::lemma_counts_cover_all;
use crate::player::PLAYER_RADIUS;
use crate::player::Player;
use crate::player::handle_move;
use crate::player::start_heading;
use crate::player::start_x;

verus! {

/// All that a game holds at one moment.
pub ghost struct GameState {
    pub arena: Arena,
    pub brick_width: int,
    pub grid_count: int,
    pub owners: Seq<BrickColor>,
    pub red: Player,
    pub blue: Player,
}

/// `player` after its turn of collisions on a grid with the given owners.
pub open spec fn player_after_turn(
    player: Player,
    arena: Arena,
    brick_width: int,
    grid_count: int,
    owners: Seq<BrickColor>,
) -> Player {
    player_after_walls(player_after_cells(player, brick_width, grid_count, owners), arena)
}

/// The state in which a game with the given configuration starts.
pub open spec fn initial_state(brick_width: int, grid_count: int, wall_thickness: int) -> GameState {
    let span = half_span(brick_width, grid_count);
    GameState {
        arena: Arena {
            left: (-span) as i64,
            right: span as i64,
            bottom: (-span) as i64,
            top: span as i64,
            wall_thickness: (wall_thickness * SUBUNITS) as i64,
        },
        brick_width,
        grid_count,
        owners: initial_owners(brick_width, grid_count),
        red: Player {
            color: BrickColor::Red,
            position: crate::geometry::Vec2 {
                x: start_x(BrickColor::Red, brick_width, grid_count) as i64,
                y: 0,
            },
            heading: start_heading(BrickColor::Red),
            radius: PLAYER_RADIUS,
        },
        blue: Player {
            color: BrickColor::Blue,
            position: crate::geometry::Vec2 {
                x: start_x(BrickColor::Blue, brick_width, grid_count) as i64,
                y: 0,
            },
            heading: start_heading(BrickColor::Blue),
            radius: PLAYER_RADIUS,
        },
    }
}

impl GameState {
    /// The arena and both players are well formed, each player has its own
    /// colour, and there is one owner for each cell of the square grid.
    pub open spec fn wf(self) -> bool {
        &&& self.arena.wf()
        &&& 0 <= self.brick_width <= u16::MAX
        &&& 0 <= self.grid_count <= u16::MAX
        &&& self.owners.len() == (self.grid_count + 1) * (self.grid_count + 1)
        &&& self.red.wf()
        &&& self.blue.wf()
        &&& self.red.color == BrickColor::Red
        &&& self.blue.color == BrickColor::Blue
    }

    /// The player of `color`.
    pub open spec fn player(self, color: BrickColor) -> Player {
        match color {
            BrickColor::Red => self.red,
            BrickColor::Blue => self.blue,
        }
    }

    /// The score of `color`: the number of cells that it owns.
    pub open spec fn score(self, color: BrickColor) -> nat {
        count_owned(self.owners, color)
    }

    /// Both players can move for `dt` microseconds without leaving the
    /// coordinates' range.
    pub open spec fn can_tick(self, dt: u32) -> bool {
        self.red.spec_can_advance(dt) && self.blue.spec_can_advance(dt)
    }

    /// The state one tick of `dt` microseconds later: both players have
    /// moved, then red has had its turn of collisions, then blue, on the
    /// grid as red left it.
    pub open spec fn tick(self, dt: u32) -> GameState {
        let red = self.red.spec_advance(dt);
        let blue = self.blue.spec_advance(dt);
        let owners = owners_after_cells(red, self.brick_width, self.grid_count, self.owners);
        GameState {
            owners: owners_after_cells(blue, self.brick_width, self.grid_count, owners),
            red: player_after_turn(
                red,
                self.arena,
                self.brick_width,
                self.grid_count,
                self.owners,
            ),
            blue: player_after_turn(blue, self.arena, self.brick_width, self.grid_count, owners),
            ..self
        }
    }

    /// The state after up to `ticks` ticks of `dt` microseconds: the run
    /// ends early in the first state in which a player cannot move.
    pub open spec fn run(self, dt: u32, ticks: nat) -> GameState
        decreases ticks,
    {
        if ticks == 0 || !self.can_tick(dt) {
            self
        } else {
            self.tick(dt).run(dt, (ticks - 1) as nat)
        }
    }

    /// How many of `ticks` ticks a run makes before it ends.
    pub open spec fn ticks_made(self, dt: u32, ticks: nat) -> nat
        decreases ticks,
    {
        if ticks == 0 || !self.can_tick(dt) {
            0
        } else {
            1 + self.tick(dt).ticks_made(dt, (ticks - 1) as nat)
        }
    }
}

/// A tick keeps the state well formed: no cell is added or removed, and
/// each player keeps its colour.
pub proof fn lemma_tick_keeps_well_formed(s: GameState, dt: u32)
    requires
        s.wf(),
    ensures
        s.tick(dt).wf(),
        s.tick(dt).owners.len() == s.owners.len(),
        s.tick(dt).arena == s.arena,
        s.tick(dt).brick_width == s.brick_width,
        s.tick(dt).grid_count == s.grid_count,
{
}

/// A run keeps the state well formed, and the grid at its size.
pub proof fn lemma_run_keeps_well_formed(s: GameState, dt: u32, ticks: nat)
    requires
        s.wf(),
    ensures
        s.run(dt, ticks).wf(),
        s.run(dt, ticks).owners.len() == s.owners.len(),
        s.ticks_made(dt, ticks) <= ticks,
    decreases ticks,
{
    if ticks > 0 && s.can_tick(dt) {
        lemma_tick_keeps_well_formed(s, dt);
        lemma_run_keeps_well_formed(s.tick(dt), dt, (ticks - 1) as nat);
    }
}

/// After any number of ticks the two scores add up to the number of cells,
/// which is what it was at the start.
pub proof fn lemma_scores_are_conserved(s: GameState, dt: u32, ticks: nat)
    requires
        s.wf(),
    ensures
        s.run(dt, ticks).score(BrickColor::Red) + s.run(dt, ticks).score(BrickColor::Blue)
            == s.owners.len(),
{
    lemma_run_keeps_well_formed(s, dt, ticks);
    lemma_counts_cover_all(s.run(dt, ticks).owners);
}

/// Two runs from the same state with the same ticks end in the same state:
/// the same owner for every cell, and the same position and heading for each
/// player.
pub proof fn lemma_runs_agree(a: GameState, b: GameState, dt: u32, ticks: nat)
    requires
        a == b,
    ensures
        a.run(dt, ticks) == b.run(dt, ticks),
        a.run(dt, ticks).owners == b.run(dt, ticks).owners,
        a.run(dt, ticks).red == b.run(dt, ticks).red,
        a.run(dt, ticks).blue == b.run(dt, ticks).blue,
        a.ticks_made(dt, ticks) == b.ticks_made(dt, ticks),
{
}

/// A game in progress.
#[derive(Debug)]
pub struct RegionGame {
    arena: Arena,
    grid: Grid,
    red: Player,
    blue: Player,
}

impl View for RegionGame {
    type V = GameState;

    /// The state of the game.
    closed spec fn view(&self) -> GameState {
        GameState {
            arena: self.arena,
            brick_width: self.grid.spec_brick_width(),
            grid_count: self.grid.spec_grid_count(),
            owners: self.grid@,
            red: self.red,
            blue: self.blue,
        }
    }
}

impl RegionGame {
    /// The game's state is well formed.
    pub open spec fn wf(&self) -> bool {
        self@.wf()
    }

    /// A game at its start, for the given brick width, grid count and wall
    /// thickness in whole units. A configuration whose arena would have no
    /// extent is refused.
    pub fn new(brick_width: u16, grid_count: u16, wall_thickness: u16) -> (r: Result<
        RegionGame,
        ConfigError,
    >)
        ensures
            r.is_ok() <==> brick_width >= 1 && grid_count >= 2,
            r.is_ok() <==> half_span(brick_width as int, grid_count as int) > 0,
            match r {
                Ok(game) => game.wf() && game@ == initial_state(
                    brick_width as int,
                    grid_count as int,
                    wall_thickness as int,
                ),
                Err(e) => e == ConfigError::DegenerateSpan,
            },
    {
        match Arena::new(brick_width, grid_count, wall_thickness) {
            Err(e) => Err(e),
            Ok(arena) => {
                let grid = Grid::new(brick_width, grid_count);
                let red = Player::new(BrickColor::Red, brick_width, grid_count);
                let blue = Player::new(BrickColor::Blue, brick_width, grid_count);
                Ok(RegionGame { arena, grid, red, blue })
            },
        }
    }

    /// A game that starts with the given players in place of the usual
    /// ones. The configuration is refused where the arena would have no
    /// extent; the players are refused where one of them is not well formed
    /// or does not have its own colour.
    pub fn with_players(
        brick_width: u16,
        grid_count: u16,
        wall_thickness: u16,
        red: Player,
        blue: Player,
    ) -> (r: Result<RegionGame, ConfigError>)
        ensures
            r.is_ok() <==> brick_width >= 1 && grid_count >= 2 && red.wf() && blue.wf()
                && red.color == BrickColor::Red && blue.color == BrickColor::Blue,
            match r {
                Ok(game) => game.wf() && game@ == (GameState {
                    red,
                    blue,
                    ..initial_state(brick_width as int, grid_count as int, wall_thickness as int)
                }),
                Err(e) => e == if brick_width >= 1 && grid_count >= 2 {
                    ConfigError::InvalidPlayer
                } else {
                    ConfigError::DegenerateSpan
                },
            },
    {
        match Arena::new(brick_width, grid_count, wall_thickness) {
            Err(e) => Err(e),
            Ok(arena) => {
                if !red.is_well_formed() || !blue.is_well_formed() || red.color != BrickColor::Red
                    || blue.color != BrickColor::Blue {
                    return Err(ConfigError::InvalidPlayer);
                }
                let grid = Grid::new(brick_width, grid_count);
                Ok(RegionGame { arena, grid, red, blue })
            },
        }
    }

    /// The arena of the game.
    pub fn arena(&self) -> (a: &Arena)
        ensures
            *a == self@.arena,
    {
        &self.arena
    }

    /// The grid of cells with their owners.
    pub fn grid(&self) -> (g: &Grid)
        ensures
            g@ == self@.owners,
            g.spec_brick_width() == self@.brick_width,
            g.spec_grid_count() == self@.grid_count,
            self.wf() ==> g.wf(),
    {
        &self.grid
    }

    /// The player of `color`.
    pub fn player(&self, color: BrickColor) -> (p: &Player)
        ensures
            *p == self@.player(color),
    {
        match color {
            BrickColor::Red => &self.red,
            BrickColor::Blue => &self.blue,
        }
    }

    /// The score of `color`: the number of cells that it owns.
    pub fn score(&self, color: BrickColor) -> (n: usize)
        ensures
            n == self@.score(color),
    {
        self.grid.score(color)
    }

    /// Whether both players can move for `dt` microseconds without leaving
    /// the coordinates' range.
    pub fn can_tick(&self, dt: u32) -> (ok: bool)
        ensures
            ok == self@.can_tick(dt),
    {
        self.red.can_advance(dt) && self.blue.can_advance(dt)
    }

    /// One tick of `dt` microseconds: both players move, then red's
    /// collisions are resolved, then blue's.
    pub fn tick(&mut self, dt: u32)
        requires
            old(self).wf(),
            old(self)@.can_tick(dt),
        ensures
            final(self).wf(),
            final(self)@ == old(self)@.tick(dt),
    {
        handle_move(&mut self.red, dt);
        handle_move(&mut self.blue, dt);
        check_collider(&mut self.grid, &self.arena, &mut self.red);
        check_collider(&mut self.grid, &self.arena, &mut self.blue);
    }

    /// Up to `ticks` ticks of `dt` microseconds each. The run ends early,
    /// and leaves the state as it is, when a player's next move would leave
    /// the coordinates' range. Returns the number of ticks made.
    pub fn run(&mut self, dt: u32, ticks: u32) -> (made: u32)
        requires
            old(self).wf(),
        ensures
            final(self).wf(),
            final(self)@ == old(self)@.run(dt, ticks as nat),
            made == old(self)@.ticks_made(dt, ticks as nat),
            made <= ticks,
            made < ticks ==> !final(self)@.can_tick(dt),
    {
        let ghost start = self@;
        let mut made: u32 = 0;
        while made < ticks
            invariant_except_break
                made <= ticks,
                self.wf(),
                start.run(dt, ticks as nat) == self@.run(dt, (ticks - made) as nat),
                start.ticks_made(dt, ticks as nat) == made + self@.ticks_made(
                    dt,
                    (ticks - made) as nat,
                ),
            ensures
                made <= ticks,
                self.wf(),
                start.run(dt, ticks as nat) == self@,
                start.ticks_made(dt, ticks as nat) == made,
                made < ticks ==> !self@.can_tick(dt),
            decreases ticks - made,
        {
            if !self.can_tick(dt) {
                break ;
            }
            self.tick(dt);
            made = made + 1;
        }
        made
    }
}

/// The two scores of a grid, red's first. Together they count every cell.
pub fn handle_score_update(grid: &Grid) -> (scores: (usize, usize))
    ensures
        scores.0 == count_owned(grid@, BrickColor::Red),
        scores.1 == count_owned(grid@, BrickColor::Blue),
        scores.0 + scores.1 == grid@.len(),
{
    proof {
        lemma_counts_cover_all(grid@);
    }
    (grid.score(BrickColor::Red), grid.score(BrickColor::Blue))
}

} // verus!
