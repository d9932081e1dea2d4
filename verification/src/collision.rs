//! The collision resolver: a player is tested against every cell and every
//! wall. A cell of the other colour is captured and turns the player around;
//! a cell of the player's own colour is passed through; a wall always turns
//! the player around.

use vstd::prelude::*;
use crate::arena::Arena;
use crate::arena::WallLocation;
use crate::geometry::Aabb2d;
use crate::geometry::Collision;
use crate::geometry::Vec2;
use crate::geometry::ball_collision;
use crate::geometry::spec_ball_collision;
use crate::grid::BrickColor;
use crate::grid::Grid;
use crate::grid::cell_box;
use crate::player::Player;

verus! {

/// The side of cell `i` that `player` has hit, if it touches the cell.
pub open spec fn cell_hit(player: Player, brick_width: int, grid_count: int, i: int) -> Option<
    Collision,
> {
    spec_ball_collision(player.spec_bounding_circle(), cell_box(brick_width, grid_count, i))
}

/// `player` touches cell `i`, and the cell is not its own: the overlap
/// captures the cell and turns the player around.
pub open spec fn eligible(
    player: Player,
    brick_width: int,
    grid_count: int,
    owners: Seq<BrickColor>,
    i: int,
) -> bool {
    cell_hit(player, brick_width, grid_count, i).is_some() && owners[i] != player.color
}

/// The owners after `player` was tested against every cell: each cell that
/// it touches is its own, every other cell is as before.
pub open spec fn owners_after_cells(
    player: Player,
    brick_width: int,
    grid_count: int,
    owners: Seq<BrickColor>,
) -> Seq<BrickColor> {
    Seq::new(
        owners.len(),
        |i: int|
            if cell_hit(player, brick_width, grid_count, i).is_some() {
                player.color
            } else {
                owners[i]
            },
    )
}

/// How many of the first `n` cells `player` captures with a hit on a left or
/// right side (`horizontal`), or on a top or bottom side (not `horizontal`).
pub open spec fn cell_flips(
    player: Player,
    brick_width: int,
    grid_count: int,
    owners: Seq<BrickColor>,
    n: int,
    horizontal: bool,
) -> nat
    decreases n,
{
    if n <= 0 {
        0
    } else {
        cell_flips(player, brick_width, grid_count, owners, n - 1, horizontal) + if eligible(
            player,
            brick_width,
            grid_count,
            owners,
            n - 1,
        ) && cell_hit(player, brick_width, grid_count, n - 1).unwrap().is_horizontal()
            == horizontal {
            1nat
        } else {
            0nat
        }
    }
}

/// `v` after its sign was turned `flips` times.
pub open spec fn flipped(v: i64, flips: nat) -> i64 {
    if flips % 2 == 0 {
        v
    } else {
        (-v) as i64
    }
}

/// The player after it was tested against every cell: each capture has
/// turned one component of the heading around, so a component ends up
/// negated where the captures across it are odd in number. Nothing else
/// changes.
pub open spec fn player_after_cells(
    player: Player,
    brick_width: int,
    grid_count: int,
    owners: Seq<BrickColor>,
) -> Player {
    Player {
        heading: Vec2 {
            x: flipped(
                player.heading.x,
                cell_flips(player, brick_width, grid_count, owners, owners.len() as int, true),
            ),
            y: flipped(
                player.heading.y,
                cell_flips(player, brick_width, grid_count, owners, owners.len() as int, false),
            ),
        },
        ..player
    }
}

/// The side of the wall at `location` that `player` has hit, if it touches
/// the wall.
pub open spec fn wall_hit(player: Player, arena: Arena, location: WallLocation) -> Option<
    Collision,
> {
    spec_ball_collision(player.spec_bounding_circle(), location.spec_bounding_box(arena))
}

/// The player after it was tested against one wall: turned around where it
/// touches the wall, unchanged where it does not.
pub open spec fn player_after_wall(player: Player, arena: Arena, location: WallLocation) -> Player {
    match wall_hit(player, arena, location) {
        Some(side) => player.spec_reflect(side),
        None => player,
    }
}

/// The player after it was tested against the four walls in turn.
pub open spec fn player_after_walls(player: Player, arena: Arena) -> Player {
    let a = player_after_wall(player, arena, WallLocation::Left);
    let b = player_after_wall(a, arena, WallLocation::Right);
    let c = player_after_wall(b, arena, WallLocation::Bottom);
    player_after_wall(c, arena, WallLocation::Top)
}

/// A player that touches a box, and lies farther from it across than up,
/// has hit the box's left or right side, never its top or bottom; the hit
/// negates the horizontal component of the heading and leaves the vertical
/// one.
pub proof fn lemma_wider_hit_turns_across(player: Player, b: Aabb2d)
    requires
        player.wf(),
        b.wf(),
        player.spec_bounding_circle().spec_intersects(b),
        vstd::math::abs(player.spec_bounding_circle().offset_x(b)) > vstd::math::abs(
            player.spec_bounding_circle().offset_y(b),
        ),
    ensures
        spec_ball_collision(player.spec_bounding_circle(), b) matches Some(side) && {
            &&& side == Collision::Left || side == Collision::Right
            &&& player.spec_reflect(side).heading.x == -player.heading.x
            &&& player.spec_reflect(side).heading.y == player.heading.y
            &&& player.spec_reflect(side).position == player.position
        },
{
}

/// A cell of the player's own colour is transparent: where the player
/// touches it, the cell keeps its owner and turns no component of the
/// heading.
pub proof fn lemma_own_cell_is_transparent(
    player: Player,
    brick_width: int,
    grid_count: int,
    owners: Seq<BrickColor>,
    i: int,
)
    requires
        0 <= i < owners.len(),
        cell_hit(player, brick_width, grid_count, i).is_some(),
        owners[i] == player.color,
    ensures
        !eligible(player, brick_width, grid_count, owners, i),
        owners_after_cells(player, brick_width, grid_count, owners)[i] == owners[i],
        forall|horizontal: bool|
            #![auto]
            cell_flips(player, brick_width, grid_count, owners, i + 1, horizontal) == cell_flips(
                player,
                brick_width,
                grid_count,
                owners,
                i,
                horizontal,
            ),
{
}

/// A cell of the other colour is captured: where the player touches it, the
/// cell becomes the player's, and the hit turns the heading once, across
/// the side that was hit and not along it.
pub proof fn lemma_foreign_cell_is_captured(
    player: Player,
    brick_width: int,
    grid_count: int,
    owners: Seq<BrickColor>,
    i: int,
)
    requires
        0 <= i < owners.len(),
        cell_hit(player, brick_width, grid_count, i).is_some(),
        owners[i] != player.color,
    ensures
        eligible(player, brick_width, grid_count, owners, i),
        owners_after_cells(player, brick_width, grid_count, owners)[i] == player.color,
        ({
            let across = cell_hit(player, brick_width, grid_count, i).unwrap().is_horizontal();
            &&& cell_flips(player, brick_width, grid_count, owners, i + 1, across) == cell_flips(
                player,
                brick_width,
                grid_count,
                owners,
                i,
                across,
            ) + 1
            &&& cell_flips(player, brick_width, grid_count, owners, i + 1, !across) == cell_flips(
                player,
                brick_width,
                grid_count,
                owners,
                i,
                !across,
            )
        }),
{
}

/// A cell that the player does not touch keeps its owner.
pub proof fn lemma_untouched_cell_keeps_owner(
    player: Player,
    brick_width: int,
    grid_count: int,
    owners: Seq<BrickColor>,
    i: int,
)
    requires
        0 <= i < owners.len(),
        cell_hit(player, brick_width, grid_count, i).is_none(),
    ensures
        owners_after_cells(player, brick_width, grid_count, owners)[i] == owners[i],
{
}

/// A pass over the cells adds and removes none, and leaves the player where
/// it is, with its colour and radius.
pub proof fn lemma_cell_pass_keeps_shape(
    player: Player,
    brick_width: int,
    grid_count: int,
    owners: Seq<BrickColor>,
)
    ensures
        owners_after_cells(player, brick_width, grid_count, owners).len() == owners.len(),
        player_after_cells(player, brick_width, grid_count, owners).position == player.position,
        player_after_cells(player, brick_width, grid_count, owners).color == player.color,
        player_after_cells(player, brick_width, grid_count, owners).radius == player.radius,
{
}

/// Turning a sign once more negates the value.
proof fn lemma_flip_once_more(v: i64, flips: nat)
    requires
        v > i64::MIN,
    ensures
        flipped(v, flips + 1) == -flipped(v, flips),
        flipped(v, flips) > i64::MIN,
{
}

/// Tests `player` against cell `i`. Where it touches the cell and the cell
/// is owned by the other colour, the cell becomes the player's and the
/// player turns around on the side that it hit. Where it does not touch the
/// cell, or owns it already, nothing changes.
pub fn visit_cell(grid: &mut Grid, player: &mut Player, i: usize)
    requires
        old(grid).wf(),
        old(player).wf(),
        i < old(grid)@.len(),
    ensures
        final(grid).wf(),
        final(grid).spec_brick_width() == old(grid).spec_brick_width(),
        final(grid).spec_grid_count() == old(grid).spec_grid_count(),
        final(player).wf(),
        eligible(
            *old(player),
            old(grid).spec_brick_width(),
            old(grid).spec_grid_count(),
            old(grid)@,
            i as int,
        ) ==> {
            &&& final(grid)@ == old(grid)@.update(i as int, old(player).color)
            &&& *final(player) == old(player).spec_reflect(
                cell_hit(
                    *old(player),
                    old(grid).spec_brick_width(),
                    old(grid).spec_grid_count(),
                    i as int,
                ).unwrap(),
            )
        },
        !eligible(
            *old(player),
            old(grid).spec_brick_width(),
            old(grid).spec_grid_count(),
            old(grid)@,
            i as int,
        ) ==> {
            &&& final(grid)@ == old(grid)@
            &&& *final(player) == *old(player)
        },
{
    let cell = grid.cell_box(i);
    if let Some(side) = ball_collision(player.bounding_circle(), cell) {
        if grid.owner(i) != player.color {
            player.reflect(side);
            grid.set_owner(i, player.color);
        }
    }
}

/// Tests `player` against every cell of the grid.
///
/// Afterwards the player owns every cell that it touches, and no other cell
/// has changed. Each component of its heading is negated where the number of
/// captures across it is odd, so the result does not depend on the order in
/// which the cells are visited.
pub fn cell_pass(grid: &mut Grid, player: &mut Player)
    requires
        old(grid).wf(),
        old(player).wf(),
    ensures
        final(grid).wf(),
        final(grid).spec_brick_width() == old(grid).spec_brick_width(),
        final(grid).spec_grid_count() == old(grid).spec_grid_count(),
        final(grid)@.len() == old(grid)@.len(),
        final(grid)@ == owners_after_cells(
            *old(player),
            old(grid).spec_brick_width(),
            old(grid).spec_grid_count(),
            old(grid)@,
        ),
        final(player).wf(),
        *final(player) == player_after_cells(
            *old(player),
            old(grid).spec_brick_width(),
            old(grid).spec_grid_count(),
            old(grid)@,
        ),
{
    let ghost before = *player;
    let ghost owners = grid@;
    let ghost w = grid.spec_brick_width();
    let ghost c = grid.spec_grid_count();
    let n: usize = grid.len();
    let mut i: usize = 0;
    while i < n
        invariant
            i <= n,
            n == owners.len(),
            before.wf(),
            grid.wf(),
            grid.spec_brick_width() == w,
            grid.spec_grid_count() == c,
            grid@.len() == n,
            forall|k: int|
                0 <= k < i ==> grid@[k] == if cell_hit(before, w, c, k).is_some() {
                    before.color
                } else {
                    owners[k]
                },
            forall|k: int| i <= k < n ==> grid@[k] == owners[k],
            player.wf(),
            *player == (Player {
                heading: Vec2 {
                    x: flipped(before.heading.x, cell_flips(before, w, c, owners, i as int, true)),
                    y: flipped(
                        before.heading.y,
                        cell_flips(before, w, c, owners, i as int, false),
                    ),
                },
                ..before
            }),
        decreases n - i,
    {
        proof {
            lemma_flip_once_more(before.heading.x, cell_flips(before, w, c, owners, i as int, true));
            lemma_flip_once_more(
                before.heading.y,
                cell_flips(before, w, c, owners, i as int, false),
            );
            assert(cell_hit(*player, w, c, i as int) == cell_hit(before, w, c, i as int));
        }
        visit_cell(grid, player, i);
        i = i + 1;
    }
    assert(grid@ =~= owners_after_cells(before, w, c, owners));
}

/// Tests `player` against the wall at `location`: where it touches the wall
/// it turns around on the side that it hit, whoever owns the floor.
pub fn visit_wall(arena: &Arena, player: &mut Player, location: WallLocation)
    requires
        arena.wf(),
        old(player).wf(),
    ensures
        final(player).wf(),
        *final(player) == player_after_wall(*old(player), *arena, location),
{
    let wall = location.bounding_box(arena);
    if let Some(side) = ball_collision(player.bounding_circle(), wall) {
        player.reflect(side);
    }
}

/// Tests `player` against the four walls: left, right, bottom, top.
pub fn wall_pass(arena: &Arena, player: &mut Player)
    requires
        arena.wf(),
        old(player).wf(),
    ensures
        final(player).wf(),
        *final(player) == player_after_walls(*old(player), *arena),
        final(player).position == old(player).position,
        final(player).color == old(player).color,
        final(player).radius == old(player).radius,
{
    visit_wall(arena, player, WallLocation::Left);
    visit_wall(arena, player, WallLocation::Right);
    visit_wall(arena, player, WallLocation::Bottom);
    visit_wall(arena, player, WallLocation::Top);
}

/// One player's turn in a tick: the cell pass, then the wall pass. The
/// player is not moved; the walls change no cell.
pub fn check_collider(grid: &mut Grid, arena: &Arena, player: &mut Player)
    requires
        old(grid).wf(),
        arena.wf(),
        old(player).wf(),
    ensures
        final(grid).wf(),
        final(grid).spec_brick_width() == old(grid).spec_brick_width(),
        final(grid).spec_grid_count() == old(grid).spec_grid_count(),
        final(grid)@.len() == old(grid)@.len(),
        final(grid)@ == owners_after_cells(
            *old(player),
            old(grid).spec_brick_width(),
            old(grid).spec_grid_count(),
            old(grid)@,
        ),
        final(player).wf(),
        *final(player) == player_after_walls(
            player_after_cells(
                *old(player),
                old(grid).spec_brick_width(),
                old(grid).spec_grid_count(),
                old(grid)@,
            ),
            *arena,
        ),
        final(player).position == old(player).position,
        final(player).color == old(player).color,
        final(player).radius == old(player).radius,
{
    cell_pass(grid, player);
    wall_pass(arena, player);
}

} // verus!
