//! The static playfield: a square arena centered on the origin, and the four
//! walls that close it.

use vstd::prelude::*;
use crate::geometry::Aabb2d;
use crate::geometry::Vec2;

verus! {

/// Sub-units per unit. Brick widths, grid counts and wall thicknesses are
/// given in whole units; every coordinate is held in sub-units, so that half
/// of any whole-unit length is exact.
pub const SUBUNITS: i64 = 1_000_000;

/// No coordinate of a well-formed arena lies farther from the origin.
pub const COORD_LIMIT: i64 = 0x1000_0000_0000_0000;

/// Why an arena could not be built.
#[derive(Clone, Copy, Debug, PartialEq, Eq, Structural)]
pub enum ConfigError {
    /// The arena would have no extent: its span is not positive.
    DegenerateSpan,
    /// A player has a negative radius, a heading that cannot be turned
    /// around, or the other player's colour.
    InvalidPlayer,
}

/// Which side of the arena a wall stands on.
#[derive(Clone, Copy, Debug, PartialEq, Eq, Structural)]
pub enum WallLocation {
    Left,
    Right,
    Bottom,
    Top,
}

/// The bounds of the playfield and the thickness of its walls, in sub-units.
#[derive(Clone, Copy, Debug, PartialEq, Eq, Structural)]
pub struct Arena {
    pub left: i64,
    pub right: i64,
    pub bottom: i64,
    pub top: i64,
    pub wall_thickness: i64,
}

/// Half the span, in sub-units, of the arena for bricks of `brick_width`
/// units laid `grid_count` to a side.
pub open spec fn half_span(brick_width: int, grid_count: int) -> int {
    (grid_count / 2) * brick_width * SUBUNITS
}

/// The span of an arena is positive exactly where the bricks have a width
/// and the grid count is at least two; with a count of one the half count
/// is zero, and so is the span.
pub proof fn lemma_span_positive(brick_width: int, grid_count: int)
    requires
        0 <= brick_width,
        0 <= grid_count,
    ensures
        half_span(brick_width, grid_count) > 0 <==> brick_width >= 1 && grid_count >= 2,
        half_span(brick_width, grid_count) >= 0,
{
    let mid = grid_count / 2;
    assert(mid * brick_width > 0 <==> mid > 0 && brick_width > 0) by (nonlinear_arith)
        requires
            0 <= mid,
            0 <= brick_width,
    ;
    assert(mid * brick_width >= 0) by (nonlinear_arith)
        requires
            0 <= mid,
            0 <= brick_width,
    ;
    assert(mid * brick_width * SUBUNITS > 0 <==> mid * brick_width > 0) by (nonlinear_arith)
        requires
            SUBUNITS == 1_000_000,
    ;
    assert(mid * brick_width * SUBUNITS >= 0) by (nonlinear_arith)
        requires
            mid * brick_width >= 0,
            SUBUNITS == 1_000_000,
    ;
}

impl Arena {
    /// The arena has extent on both axes, and all of it lies within
    /// `COORD_LIMIT` of the origin.
    pub open spec fn wf(&self) -> bool {
        &&& -COORD_LIMIT <= self.left < self.right <= COORD_LIMIT
        &&& -COORD_LIMIT <= self.bottom < self.top <= COORD_LIMIT
        &&& 0 <= self.wall_thickness <= COORD_LIMIT
    }

    /// The distance from the left bound to the right.
    pub open spec fn spec_width(&self) -> int {
        self.right - self.left
    }

    /// The distance from the bottom bound to the top.
    pub open spec fn spec_height(&self) -> int {
        self.top - self.bottom
    }

    /// The square arena for the given brick width, grid count and wall
    /// thickness, all in whole units. A configuration whose span is not
    /// positive is refused.
    pub fn new(brick_width: u16, grid_count: u16, wall_thickness: u16) -> (r: Result<
        Arena,
        ConfigError,
    >)
        ensures
            r.is_ok() <==> half_span(brick_width as int, grid_count as int) > 0,
            r.is_ok() <==> brick_width >= 1 && grid_count >= 2,
            r.is_err() ==> r == Err::<Arena, ConfigError>(ConfigError::DegenerateSpan),
            r matches Ok(a) ==> {
                &&& a.wf()
                &&& a.left == -half_span(brick_width as int, grid_count as int)
                &&& a.right == -a.left
                &&& a.bottom == a.left
                &&& a.top == a.right
                &&& a.wall_thickness == wall_thickness * SUBUNITS
                &&& a.spec_width() > 0
                &&& a.spec_height() > 0
            },
    {
        let mid: i64 = (grid_count / 2) as i64;
        let width: i64 = brick_width as i64;
        assert(0 <= mid * width <= 32767 * 65535) by (nonlinear_arith)
            requires
                0 <= mid <= 32767,
                0 <= width <= 65535,
        ;
        assert(mid * width > 0 <==> mid > 0 && width > 0) by (nonlinear_arith)
            requires
                0 <= mid,
                0 <= width,
        ;
        let cells: i64 = mid * width;
        let right: i64 = cells * SUBUNITS;
        if right <= 0 {
            return Err(ConfigError::DegenerateSpan);
        }
        Ok(
            Arena {
                left: -right,
                right,
                bottom: -right,
                top: right,
                wall_thickness: wall_thickness as i64 * SUBUNITS,
            },
        )
    }

    /// The distance from the left bound to the right.
    pub fn width(&self) -> (w: i64)
        requires
            self.wf(),
        ensures
            w == self.spec_width(),
            w > 0,
    {
        self.right - self.left
    }

    /// The distance from the bottom bound to the top.
    pub fn height(&self) -> (h: i64)
        requires
            self.wf(),
        ensures
            h == self.spec_height(),
            h > 0,
    {
        self.top - self.bottom
    }
}

impl WallLocation {
    /// The center of the wall: the midpoint of its edge of the arena.
    pub open spec fn spec_position(&self, arena: Arena) -> Vec2 {
        match self {
            WallLocation::Left => Vec2 { x: arena.left, y: 0 },
            WallLocation::Right => Vec2 { x: arena.right, y: 0 },
            WallLocation::Bottom => Vec2 { x: 0, y: arena.bottom },
            WallLocation::Top => Vec2 { x: 0, y: arena.top },
        }
    }

    /// The extent of the wall: the wall's thickness across, and along it the
    /// arena's span lengthened by the thickness, so that adjoining walls
    /// overlap at the corners.
    pub open spec fn spec_size(&self, arena: Arena) -> Vec2 {
        match self {
            WallLocation::Left | WallLocation::Right => Vec2 {
                x: arena.wall_thickness,
                y: (arena.spec_height() + arena.wall_thickness) as i64,
            },
            WallLocation::Bottom | WallLocation::Top => Vec2 {
                x: (arena.spec_width() + arena.wall_thickness) as i64,
                y: arena.wall_thickness,
            },
        }
    }

    /// The box that the wall fills: its size halved to each side of its
    /// position.
    pub open spec fn spec_bounding_box(&self, arena: Arena) -> Aabb2d {
        let p = self.spec_position(arena);
        let s = self.spec_size(arena);
        Aabb2d {
            min: Vec2 { x: (p.x - s.x / 2) as i64, y: (p.y - s.y / 2) as i64 },
            max: Vec2 { x: (p.x + s.x / 2) as i64, y: (p.y + s.y / 2) as i64 },
        }
    }

    /// The center of the wall.
    pub fn position(&self, arena: &Arena) -> (p: Vec2)
        ensures
            p == self.spec_position(*arena),
    {
        match self {
            WallLocation::Left => Vec2::new(arena.left, 0),
            WallLocation::Right => Vec2::new(arena.right, 0),
            WallLocation::Bottom => Vec2::new(0, arena.bottom),
            WallLocation::Top => Vec2::new(0, arena.top),
        }
    }

    /// The extent of the wall, across and along.
    pub fn size(&self, arena: &Arena) -> (s: Vec2)
        requires
            arena.wf(),
        ensures
            s == self.spec_size(*arena),
            s.x == match self {
                WallLocation::Left | WallLocation::Right => arena.wall_thickness as int,
                _ => arena.spec_width() + arena.wall_thickness,
            },
            s.y == match self {
                WallLocation::Left | WallLocation::Right => arena.spec_height()
                    + arena.wall_thickness,
                _ => arena.wall_thickness as int,
            },
            s.x >= 0,
            s.y >= 0,
    {
        let arena_height: i64 = arena.height();
        let arena_width: i64 = arena.width();
        match self {
            WallLocation::Left | WallLocation::Right => Vec2::new(
                arena.wall_thickness,
                arena_height + arena.wall_thickness,
            ),
            WallLocation::Bottom | WallLocation::Top => Vec2::new(
                arena_width + arena.wall_thickness,
                arena.wall_thickness,
            ),
        }
    }

    /// The box that the wall fills.
    pub fn bounding_box(&self, arena: &Arena) -> (b: Aabb2d)
        requires
            arena.wf(),
        ensures
            b == self.spec_bounding_box(*arena),
            b.wf(),
    {
        let p = self.position(arena);
        let s = self.size(arena);
        Aabb2d::new(p, Vec2::new(s.x / 2, s.y / 2))
    }
}

} // verus!
