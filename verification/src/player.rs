//! A player: a circle of fixed radius and colour that moves along its heading
//! and turns around when it hits something.

use vstd::prelude::*;
use crate::arena::SUBUNITS;
use crate::geometry::BoundingCircle;
use crate::geometry::Collision;
use crate::geometry::Vec2;
use crate::grid::BrickColor;

verus! {

/// The radius of a player's circle, in sub-units: ten units.
pub const PLAYER_RADIUS: i64 = 10_000_000;

/// The speed of a player along each axis at the start, in units per second.
pub const PLAYER_SPEED: i64 = 100;

/// One of the two players. The position is in sub-units; the heading is in
/// units per second, which is sub-units per microsecond.
#[derive(Clone, Copy, Debug, PartialEq, Eq, Structural)]
pub struct Player {
    pub color: BrickColor,
    pub position: Vec2,
    pub heading: Vec2,
    pub radius: i64,
}

/// `heading` after a hit on `side`: the component across that side is
/// negated, the other is kept.
pub open spec fn reflected(heading: Vec2, side: Collision) -> Vec2 {
    if side.is_horizontal() {
        Vec2 { x: (-heading.x) as i64, y: heading.y }
    } else {
        Vec2 { x: heading.x, y: (-heading.y) as i64 }
    }
}

/// Where a player of `color` starts on the horizontal axis: red a quarter of
/// the grid to the right of the left wall, blue mirrored about the center.
pub open spec fn start_x(color: BrickColor, brick_width: int, grid_count: int) -> int {
    let red = (grid_count / 4 - grid_count / 2) * brick_width * SUBUNITS;
    match color {
        BrickColor::Red => red,
        BrickColor::Blue => -red,
    }
}

/// The heading of a player of `color` at the start: red up and to the right,
/// blue down and to the left.
pub open spec fn start_heading(color: BrickColor) -> Vec2 {
    match color {
        BrickColor::Red => Vec2 { x: PLAYER_SPEED, y: PLAYER_SPEED },
        BrickColor::Blue => Vec2 { x: (-PLAYER_SPEED) as i64, y: (-PLAYER_SPEED) as i64 },
    }
}

impl Player {
    /// The radius is not negative, and both components of the heading can be
    /// negated.
    pub open spec fn wf(&self) -> bool {
        &&& self.radius >= 0
        &&& self.heading.x > i64::MIN
        &&& self.heading.y > i64::MIN
    }

    /// The circle that the player fills.
    pub open spec fn spec_bounding_circle(&self) -> BoundingCircle {
        BoundingCircle { center: self.position, radius: self.radius }
    }

    /// The player after a hit on `side`.
    pub open spec fn spec_reflect(&self, side: Collision) -> Player {
        Player { heading: reflected(self.heading, side), ..*self }
    }

    /// The position after `dt` microseconds along the heading fits the
    /// coordinates' range.
    pub open spec fn spec_can_advance(&self, dt: u32) -> bool {
        &&& i64::MIN <= self.position.x + self.heading.x * dt <= i64::MAX
        &&& i64::MIN <= self.position.y + self.heading.y * dt <= i64::MAX
    }

    /// The player after `dt` microseconds along its heading.
    pub open spec fn spec_advance(&self, dt: u32) -> Player {
        Player {
            position: Vec2 {
                x: (self.position.x + self.heading.x * dt) as i64,
                y: (self.position.y + self.heading.y * dt) as i64,
            },
            ..*self
        }
    }

    /// The player of `color` as it starts a game on the grid of the given
    /// brick width and grid count.
    pub fn new(color: BrickColor, brick_width: u16, grid_count: u16) -> (p: Player)
        ensures
            p.wf(),
            p.color == color,
            p.position.x == start_x(color, brick_width as int, grid_count as int),
            p.position.y == 0,
            p.heading == start_heading(color),
            p.radius == PLAYER_RADIUS,
    {
        let d: i64 = (grid_count / 4) as i64 - (grid_count / 2) as i64;
        let width: i64 = brick_width as i64;
        assert(-65535 * 65535 <= d * width <= 65535 * 65535) by (nonlinear_arith)
            requires
                -65535 <= d <= 65535,
                0 <= width <= 65535,
        ;
        let red_x: i64 = d * width * SUBUNITS;
        match color {
            BrickColor::Red => Player {
                color,
                position: Vec2::new(red_x, 0),
                heading: Vec2::new(PLAYER_SPEED, PLAYER_SPEED),
                radius: PLAYER_RADIUS,
            },
            BrickColor::Blue => Player {
                color,
                position: Vec2::new(-red_x, 0),
                heading: Vec2::new(-PLAYER_SPEED, -PLAYER_SPEED),
                radius: PLAYER_RADIUS,
            },
        }
    }

    /// Whether the radius is not negative and the heading can be turned
    /// around.
    pub fn is_well_formed(&self) -> (ok: bool)
        ensures
            ok == self.wf(),
    {
        self.radius >= 0 && self.heading.x > i64::MIN && self.heading.y > i64::MIN
    }

    /// The circle that the player fills.
    pub fn bounding_circle(&self) -> (c: BoundingCircle)
        ensures
            c == self.spec_bounding_circle(),
            self.wf() ==> c.wf(),
    {
        BoundingCircle::new(self.position, self.radius)
    }

    /// Turns the heading around after a hit on `side`. A hit on the left or
    /// right negates the horizontal component and leaves the vertical one;
    /// a hit on the top or bottom does the opposite.
    pub fn reflect(&mut self, side: Collision)
        requires
            old(self).wf(),
        ensures
            *final(self) == old(self).spec_reflect(side),
            final(self).wf(),
            side.is_horizontal() ==> final(self).heading.x == -old(self).heading.x,
            side.is_horizontal() ==> final(self).heading.y == old(self).heading.y,
            !side.is_horizontal() ==> final(self).heading.y == -old(self).heading.y,
            !side.is_horizontal() ==> final(self).heading.x == old(self).heading.x,
    {
        match side {
            Collision::Left | Collision::Right => {
                self.heading.x = -self.heading.x;
            },
            Collision::Top | Collision::Bottom => {
                self.heading.y = -self.heading.y;
            },
        }
    }

    /// Whether the player can move for `dt` microseconds without leaving the
    /// coordinates' range.
    pub fn can_advance(&self, dt: u32) -> (ok: bool)
        ensures
            ok == self.spec_can_advance(dt),
    {
        let step_x: i128 = stride(self.heading.x, dt);
        let step_y: i128 = stride(self.heading.y, dt);
        let x: i128 = self.position.x as i128 + step_x;
        let y: i128 = self.position.y as i128 + step_y;
        i64::MIN as i128 <= x && x <= i64::MAX as i128 && i64::MIN as i128 <= y && y
            <= i64::MAX as i128
    }
}

/// The way made in `dt` microseconds at `speed` units per second, in
/// sub-units.
fn stride(speed: i64, dt: u32) -> (s: i128)
    ensures
        s == speed * dt,
        -0x8000_0000_0000_0000_0000_0000 <= s <= 0x8000_0000_0000_0000_0000_0000,
{
    assert(-0x8000_0000_0000_0000 * 0x1_0000_0000 <= speed * dt <= 0x8000_0000_0000_0000
        * 0x1_0000_0000) by (nonlinear_arith)
        requires
            -0x8000_0000_0000_0000 <= speed <= 0x8000_0000_0000_0000,
            0 <= dt <= 0x1_0000_0000,
    ;
    speed as i128 * dt as i128
}

/// Moves `player` for `dt` microseconds along its heading: the position
/// grows by heading times duration. Heading, colour and radius stay.
pub fn handle_move(player: &mut Player, dt: u32)
    requires
        old(player).spec_can_advance(dt),
    ensures
        *final(player) == old(player).spec_advance(dt),
        final(player).position.x == old(player).position.x + old(player).heading.x * dt,
        final(player).position.y == old(player).position.y + old(player).heading.y * dt,
        old(player).wf() ==> final(player).wf(),
{
    let step_x: i128 = stride(player.heading.x, dt);
    let step_y: i128 = stride(player.heading.y, dt);
    let x: i128 = player.position.x as i128 + step_x;
    let y: i128 = player.position.y as i128 + step_y;
    player.position = Vec2::new(x as i64, y as i64);
}

} // verus!
