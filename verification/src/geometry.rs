//! Lattice geometry: points, axis-aligned boxes, circles, and the test that
//! tells which side of a box a circle has hit.

use vstd::prelude::*;

verus! {

/// A point of the lattice, or a displacement between two points.
#[derive(Clone, Copy, Debug, PartialEq, Eq, Structural)]
pub struct Vec2 {
    pub x: i64,
    pub y: i64,
}

impl Vec2 {
    /// The point with the given coordinates.
    pub fn new(x: i64, y: i64) -> (v: Vec2)
        ensures
            v.x == x,
            v.y == y,
    {
        Vec2 { x, y }
    }
}

/// The side of a box that a circle has hit.
#[derive(Clone, Copy, Debug, PartialEq, Eq, Structural)]
pub enum Collision {
    Left,
    Right,
    Top,
    Bottom,
}

impl Collision {
    /// A hit on the left or right side turns the horizontal heading around.
    pub open spec fn is_horizontal(self) -> bool {
        self == Collision::Left || self == Collision::Right
    }
}

/// An axis-aligned box, given by its lower-left and upper-right corners.
#[derive(Clone, Copy, Debug, PartialEq, Eq, Structural)]
pub struct Aabb2d {
    pub min: Vec2,
    pub max: Vec2,
}

/// `v` limited to the interval from `lo` to `hi`.
pub open spec fn clamp(v: int, lo: int, hi: int) -> int {
    if v < lo {
        lo
    } else if v > hi {
        hi
    } else {
        v
    }
}

impl Aabb2d {
    /// The corners are in order on both axes.
    pub open spec fn wf(&self) -> bool {
        self.min.x <= self.max.x && self.min.y <= self.max.y
    }

    /// The box around `center` that reaches `half_size` to each side.
    pub fn new(center: Vec2, half_size: Vec2) -> (b: Aabb2d)
        requires
            half_size.x >= 0,
            half_size.y >= 0,
            i64::MIN <= center.x - half_size.x,
            center.x + half_size.x <= i64::MAX,
            i64::MIN <= center.y - half_size.y,
            center.y + half_size.y <= i64::MAX,
        ensures
            b.wf(),
            b.min.x == center.x - half_size.x,
            b.min.y == center.y - half_size.y,
            b.max.x == center.x + half_size.x,
            b.max.y == center.y + half_size.y,
    {
        Aabb2d {
            min: Vec2 { x: center.x - half_size.x, y: center.y - half_size.y },
            max: Vec2 { x: center.x + half_size.x, y: center.y + half_size.y },
        }
    }

    /// The point of the box nearest to `p`: `p` clamped to the box on each axis.
    pub open spec fn spec_closest_point(&self, p: Vec2) -> Vec2 {
        Vec2 {
            x: clamp(p.x as int, self.min.x as int, self.max.x as int) as i64,
            y: clamp(p.y as int, self.min.y as int, self.max.y as int) as i64,
        }
    }

    /// The point of the box nearest to `p`. It is `p` itself where `p` lies
    /// in the box.
    pub fn closest_point(&self, p: Vec2) -> (c: Vec2)
        requires
            self.wf(),
        ensures
            c == self.spec_closest_point(p),
            self.contains(c),
            self.contains(p) ==> c == p,
    {
        let x: i64 = if p.x < self.min.x {
            self.min.x
        } else if p.x > self.max.x {
            self.max.x
        } else {
            p.x
        };
        let y: i64 = if p.y < self.min.y {
            self.min.y
        } else if p.y > self.max.y {
            self.max.y
        } else {
            p.y
        };
        Vec2 { x, y }
    }

    /// `p` lies in the box, its border included.
    pub open spec fn contains(&self, p: Vec2) -> bool {
        self.min.x <= p.x <= self.max.x && self.min.y <= p.y <= self.max.y
    }
}

/// A circle, given by its center and radius.
#[derive(Clone, Copy, Debug, PartialEq, Eq, Structural)]
pub struct BoundingCircle {
    pub center: Vec2,
    pub radius: i64,
}

impl BoundingCircle {
    /// The radius is not negative.
    pub open spec fn wf(&self) -> bool {
        self.radius >= 0
    }

    /// The circle around `center` with the given radius.
    pub fn new(center: Vec2, radius: i64) -> (c: BoundingCircle)
        ensures
            c.center == center,
            c.radius == radius,
    {
        BoundingCircle { center, radius }
    }

    /// Horizontal distance, with sign, from the nearest point of `b` to the center.
    pub open spec fn offset_x(&self, b: Aabb2d) -> int {
        self.center.x - b.spec_closest_point(self.center).x
    }

    /// Vertical distance, with sign, from the nearest point of `b` to the center.
    pub open spec fn offset_y(&self, b: Aabb2d) -> int {
        self.center.y - b.spec_closest_point(self.center).y
    }

    /// The circle and the box share a point: the box's nearest point is no
    /// farther from the center than the radius.
    pub open spec fn spec_intersects(&self, b: Aabb2d) -> bool {
        self.offset_x(b) * self.offset_x(b) + self.offset_y(b) * self.offset_y(b)
            <= self.radius * self.radius
    }

    /// Whether the circle and the box share a point. Touching counts.
    pub fn intersects(&self, b: &Aabb2d) -> (hit: bool)
        requires
            self.wf(),
            b.wf(),
        ensures
            hit == self.spec_intersects(*b),
    {
        let closest = b.closest_point(self.center);
        let ox: i128 = self.center.x as i128 - closest.x as i128;
        let oy: i128 = self.center.y as i128 - closest.y as i128;
        let r: i128 = self.radius as i128;
        if ox > r || -ox > r || oy > r || -oy > r {
            proof {
                lemma_square_exceeds(ox as int, oy as int, r as int);
            }
            return false;
        }
        proof {
            lemma_square_bounded(ox as int, r as int);
            lemma_square_bounded(oy as int, r as int);
            lemma_square_bounded(r as int, r as int);
        }
        ox * ox + oy * oy <= r * r
    }
}

/// Where one offset alone is longer than the radius, the squared distance
/// is more than the squared radius.
proof fn lemma_square_exceeds(ox: int, oy: int, r: int)
    requires
        r >= 0,
        ox > r || -ox > r || oy > r || -oy > r,
    ensures
        ox * ox + oy * oy > r * r,
{
    assert(ox * ox >= 0 && oy * oy >= 0) by (nonlinear_arith);
    if ox > r || -ox > r {
        assert(ox * ox > r * r) by (nonlinear_arith)
            requires
                r >= 0,
                ox > r || -ox > r,
        ;
    } else {
        assert(oy * oy > r * r) by (nonlinear_arith)
            requires
                r >= 0,
                oy > r || -oy > r,
        ;
    }
}

/// The square of a value no longer than `r` is at most the square of `r`,
/// and so fits in 127 bits where `r` fits in 63.
proof fn lemma_square_bounded(o: int, r: int)
    requires
        0 <= r <= i64::MAX,
        -r <= o <= r,
    ensures
        0 <= o * o <= r * r,
        r * r <= 0x3fff_ffff_ffff_ffff_0000_0000_0000_0001,
{
    assert(0 <= o * o <= r * r) by (nonlinear_arith)
        requires
            0 <= r,
            -r <= o <= r,
    ;
    assert(r * r <= 0x7fff_ffff_ffff_ffff * 0x7fff_ffff_ffff_ffff) by (nonlinear_arith)
        requires
            0 <= r <= 0x7fff_ffff_ffff_ffff,
    ;
}

/// The side that an offset from a box's nearest point belongs to: left or
/// right where it is longer across than up, else top or bottom.
pub open spec fn side_of(ox: int, oy: int) -> Collision {
    let ax = if ox < 0 { -ox } else { ox };
    let ay = if oy < 0 { -oy } else { oy };
    if ax > ay {
        if ox < 0 {
            Collision::Left
        } else {
            Collision::Right
        }
    } else if oy > 0 {
        Collision::Top
    } else {
        Collision::Bottom
    }
}

/// The side of `b` that `ball` has hit, or `None` where they do not touch.
pub open spec fn spec_ball_collision(ball: BoundingCircle, b: Aabb2d) -> Option<Collision> {
    if ball.spec_intersects(b) {
        Some(side_of(ball.offset_x(b), ball.offset_y(b)))
    } else {
        None
    }
}

/// Tests `ball` against `bounding_box` and names the side of the box that
/// was hit.
pub fn ball_collision(ball: BoundingCircle, bounding_box: Aabb2d) -> (side: Option<Collision>)
    requires
        ball.wf(),
        bounding_box.wf(),
    ensures
        side == spec_ball_collision(ball, bounding_box),
{
    if !ball.intersects(&bounding_box) {
        return None;
    }
    let closest = bounding_box.closest_point(ball.center);
    let ox: i128 = ball.center.x as i128 - closest.x as i128;
    let oy: i128 = ball.center.y as i128 - closest.y as i128;
    let ax: i128 = if ox < 0 { -ox } else { ox };
    let ay: i128 = if oy < 0 { -oy } else { oy };
    let side = if ax > ay {
        if ox < 0 {
            Collision::Left
        } else {
            Collision::Right
        }
    } else if oy > 0 {
        Collision::Top
    } else {
        Collision::Bottom
    };
    Some(side)
}

/// A circle that touches a box and lies farther from it across than up has
/// hit the box's left or right side, never its top or bottom.
pub proof fn lemma_wider_offset_hits_side(ball: BoundingCircle, b: Aabb2d)
    requires
        ball.wf(),
        b.wf(),
        ball.spec_intersects(b),
        vstd::math::abs(ball.offset_x(b)) > vstd::math::abs(ball.offset_y(b)),
    ensures
        spec_ball_collision(ball, b) == Some(Collision::Left) || spec_ball_collision(ball, b)
            == Some(Collision::Right),
        spec_ball_collision(ball, b).unwrap().is_horizontal(),
        spec_ball_collision(ball, b) == Some(Collision::Left) <==> ball.center.x < b.min.x,
{
}

} // verus!
