//! The floor of the arena: a square grid of cells, each owned by one of the
//! two colours. The set of cells is fixed; only ownership changes.

use vstd::prelude::*;
use crate::arena::SUBUNITS;
use crate::geometry::Aabb2d;
use crate::geometry::Vec2;

verus! {

/// The two colours: of a player, and of the cells it owns.
#[derive(Clone, Copy, Debug, PartialEq, Eq, Structural)]
pub enum BrickColor {
    Red,
    Blue,
}

impl BrickColor {
    /// The colour of the opponent.
    pub open spec fn spec_other(self) -> BrickColor {
        match self {
            BrickColor::Red => BrickColor::Blue,
            BrickColor::Blue => BrickColor::Red,
        }
    }

    /// The colour of the opponent.
    pub fn other(self) -> (c: BrickColor)
        ensures
            c == self.spec_other(),
            c != self,
    {
        match self {
            BrickColor::Red => BrickColor::Blue,
            BrickColor::Blue => BrickColor::Red,
        }
    }

    /// Turns the colour into the other one.
    pub fn change(&mut self)
        ensures
            *final(self) == old(self).spec_other(),
    {
        *self = self.other();
    }
}

/// The coordinate, in sub-units, of the row or column `index` of a grid of
/// bricks `brick_width` units wide, `grid_count + 1` to a side.
pub open spec fn cell_coord(brick_width: int, grid_count: int, index: int) -> int {
    (index - grid_count / 2) * brick_width * SUBUNITS
}

/// The center of cell `i`. Cells are numbered row by row from the bottom,
/// and from the left within a row.
pub open spec fn cell_center(brick_width: int, grid_count: int, i: int) -> Vec2 {
    Vec2 {
        x: cell_coord(brick_width, grid_count, i % (grid_count + 1)) as i64,
        y: cell_coord(brick_width, grid_count, i / (grid_count + 1)) as i64,
    }
}

/// The box that cell `i` fills: half a brick to each side of its center.
pub open spec fn cell_box(brick_width: int, grid_count: int, i: int) -> Aabb2d {
    let c = cell_center(brick_width, grid_count, i);
    let h = brick_width * SUBUNITS / 2;
    Aabb2d {
        min: Vec2 { x: (c.x - h) as i64, y: (c.y - h) as i64 },
        max: Vec2 { x: (c.x + h) as i64, y: (c.y + h) as i64 },
    }
}

/// The owner of cell `i` at the start: blue to the right of the center
/// column, red on it and to its left.
pub open spec fn initial_owner(brick_width: int, grid_count: int, i: int) -> BrickColor {
    if cell_coord(brick_width, grid_count, i % (grid_count + 1)) > 0 {
        BrickColor::Blue
    } else {
        BrickColor::Red
    }
}

/// The owners of all cells at the start.
pub open spec fn initial_owners(brick_width: int, grid_count: int) -> Seq<BrickColor> {
    Seq::new(
        ((grid_count + 1) * (grid_count + 1)) as nat,
        |i: int| initial_owner(brick_width, grid_count, i),
    )
}

/// How many of `owners` are `color`.
pub open spec fn count_owned(owners: Seq<BrickColor>, color: BrickColor) -> nat
    decreases owners.len(),
{
    if owners.len() == 0 {
        0
    } else {
        count_owned(owners.drop_last(), color) + if owners.last() == color {
            1nat
        } else {
            0nat
        }
    }
}

/// Every cell is owned by exactly one of the two colours: the two counts
/// add up to the number of cells.
pub proof fn lemma_counts_cover_all(owners: Seq<BrickColor>)
    ensures
        count_owned(owners, BrickColor::Red) + count_owned(owners, BrickColor::Blue)
            == owners.len(),
    decreases owners.len(),
{
    if owners.len() > 0 {
        lemma_counts_cover_all(owners.drop_last());
    }
}

/// Giving cell `i` to `color` raises `color`'s count by one, unless `color`
/// owned the cell already.
pub proof fn lemma_count_after_capture(owners: Seq<BrickColor>, i: int, color: BrickColor)
    requires
        0 <= i < owners.len(),
    ensures
        count_owned(owners.update(i, color), color) == count_owned(owners, color) + if owners[i]
            == color {
            0nat
        } else {
            1nat
        },
    decreases owners.len(),
{
    let after = owners.update(i, color);
    if i == owners.len() - 1 {
        assert(after.drop_last() =~= owners.drop_last());
    } else {
        lemma_count_after_capture(owners.drop_last(), i, color);
        assert(after.drop_last() =~= owners.drop_last().update(i, color));
    }
}

/// The grid of cells with their owners.
#[derive(Debug)]
pub struct Grid {
    brick_width: u16,
    grid_count: u16,
    owners: Vec<BrickColor>,
}

impl View for Grid {
    type V = Seq<BrickColor>;

    /// The owner of each cell, by the cell's number.
    closed spec fn view(&self) -> Seq<BrickColor> {
        self.owners@
    }
}

impl Grid {
    /// The width of a brick, in units.
    pub closed spec fn spec_brick_width(&self) -> int {
        self.brick_width as int
    }

    /// One less than the number of cells to a side.
    pub closed spec fn spec_grid_count(&self) -> int {
        self.grid_count as int
    }

    /// The number of cells to a side.
    pub open spec fn spec_side(&self) -> int {
        self.spec_grid_count() + 1
    }

    /// There is one owner for each cell of the square.
    pub open spec fn wf(&self) -> bool {
        &&& self@.len() == self.spec_side() * self.spec_side()
        &&& 0 <= self.spec_brick_width() <= u16::MAX
        &&& 0 <= self.spec_grid_count() <= u16::MAX
    }

    /// The center of cell `i` of this grid.
    pub open spec fn spec_cell_center(&self, i: int) -> Vec2 {
        cell_center(self.spec_brick_width(), self.spec_grid_count(), i)
    }

    /// The box that cell `i` of this grid fills.
    pub open spec fn spec_cell_box(&self, i: int) -> Aabb2d {
        cell_box(self.spec_brick_width(), self.spec_grid_count(), i)
    }

    /// The grid at the start of a game.
    pub fn new(brick_width: u16, grid_count: u16) -> (g: Grid)
        ensures
            g.wf(),
            g.spec_brick_width() == brick_width,
            g.spec_grid_count() == grid_count,
            g@ == initial_owners(brick_width as int, grid_count as int),
    {
        let side: u64 = grid_count as u64 + 1;
        assert(side * side <= 65536 * 65536) by (nonlinear_arith)
            requires
                0 <= side <= 65536,
        ;
        let total: u64 = side * side;
        let mut owners: Vec<BrickColor> = Vec::new();
        let mut i: u64 = 0;
        while i < total
            invariant
                side == grid_count + 1,
                total == side * side,
                i <= total,
                owners@.len() == i,
                forall|k: int|
                    0 <= k < i ==> owners@[k] == initial_owner(
                        brick_width as int,
                        grid_count as int,
                        k,
                    ),
            decreases total - i,
        {
            let column: u64 = i % side;
            let x: i64 = coord(brick_width, grid_count, column as u16);
            owners.push(
                if x > 0 {
                    BrickColor::Blue
                } else {
                    BrickColor::Red
                },
            );
            i = i + 1;
        }
        let g = Grid { brick_width, grid_count, owners };
        assert(g@ =~= initial_owners(brick_width as int, grid_count as int));
        g
    }

    /// The number of cells.
    pub fn len(&self) -> (n: usize)
        requires
            self.wf(),
        ensures
            n == self@.len(),
            n == self.spec_side() * self.spec_side(),
            n >= 1,
    {
        assert(self.spec_side() * self.spec_side() >= 1) by (nonlinear_arith)
            requires
                self.spec_side() >= 1,
        ;
        self.owners.len()
    }

    /// The number of cells to a side.
    pub fn side(&self) -> (n: usize)
        requires
            self.wf(),
        ensures
            n == self.spec_side(),
    {
        self.grid_count as usize + 1
    }

    /// The width of a brick, in units.
    pub fn brick_width(&self) -> (w: u16)
        ensures
            w == self.spec_brick_width(),
    {
        self.brick_width
    }

    /// One less than the number of cells to a side.
    pub fn grid_count(&self) -> (c: u16)
        ensures
            c == self.spec_grid_count(),
    {
        self.grid_count
    }

    /// The owner of cell `i`.
    pub fn owner(&self, i: usize) -> (c: BrickColor)
        requires
            i < self@.len(),
        ensures
            c == self@[i as int],
    {
        self.owners[i]
    }

    /// Gives cell `i` to `color`. No other cell changes, and none is added
    /// or removed.
    pub fn set_owner(&mut self, i: usize, color: BrickColor)
        requires
            i < old(self)@.len(),
        ensures
            final(self)@ == old(self)@.update(i as int, color),
            final(self).spec_brick_width() == old(self).spec_brick_width(),
            final(self).spec_grid_count() == old(self).spec_grid_count(),
            old(self).wf() ==> final(self).wf(),
    {
        self.owners[i] = color;
    }

    /// The number of the cell in column `ix` of row `iy`.
    pub fn index_of(&self, ix: u16, iy: u16) -> (i: usize)
        requires
            self.wf(),
            ix <= self.spec_grid_count(),
            iy <= self.spec_grid_count(),
        ensures
            i == iy * self.spec_side() + ix,
            i < self@.len(),
            i as int % self.spec_side() == ix,
            i as int / self.spec_side() == iy,
    {
        let side: usize = self.grid_count as usize + 1;
        let cells: usize = self.owners.len();
        proof {
            lemma_row_major(iy as int, ix as int, side as int);
            assert(0 <= iy * side) by (nonlinear_arith)
                requires
                    0 <= iy,
                    0 < side,
            ;
            assert(iy * side + ix < cells);
        }
        iy as usize * side + ix as usize
    }

    /// The center of cell `i`.
    pub fn cell_center(&self, i: usize) -> (p: Vec2)
        requires
            self.wf(),
            i < self@.len(),
        ensures
            p == self.spec_cell_center(i as int),
    {
        let side: usize = self.grid_count as usize + 1;
        proof {
            lemma_index_parts(i as int, side as int);
        }
        let column: usize = i % side;
        let row: usize = i / side;
        Vec2::new(
            coord(self.brick_width, self.grid_count, column as u16),
            coord(self.brick_width, self.grid_count, row as u16),
        )
    }

    /// The box that cell `i` fills.
    pub fn cell_box(&self, i: usize) -> (b: Aabb2d)
        requires
            self.wf(),
            i < self@.len(),
        ensures
            b == self.spec_cell_box(i as int),
            b.wf(),
    {
        let center = self.cell_center(i);
        let side: usize = self.grid_count as usize + 1;
        proof {
            lemma_index_parts(i as int, side as int);
            lemma_coord_bounded(
                self.brick_width as int,
                self.grid_count as int,
                i as int % side as int,
            );
            lemma_coord_bounded(
                self.brick_width as int,
                self.grid_count as int,
                i as int / side as int,
            );
        }
        let half: i64 = self.brick_width as i64 * SUBUNITS / 2;
        Aabb2d::new(center, Vec2::new(half, half))
    }

    /// The score of `color`: the number of cells that it owns.
    pub fn score(&self, color: BrickColor) -> (n: usize)
        ensures
            n == count_owned(self@, color),
    {
        let mut n: usize = 0;
        let mut i: usize = 0;
        while i < self.owners.len()
            invariant
                i <= self.owners@.len(),
                n == count_owned(self.owners@.take(i as int), color),
                n <= i,
            decreases self.owners@.len() - i,
        {
            assert(self.owners@.take(i + 1).drop_last() =~= self.owners@.take(i as int));
            if self.owners[i] == color {
                n = n + 1;
            }
            i = i + 1;
        }
        assert(self.owners@.take(i as int) =~= self.owners@);
        n
    }
}

/// A row and a column make the number of a cell, from which both can be read
/// back.
proof fn lemma_row_major(row: int, column: int, side: int)
    requires
        0 <= row < side,
        0 <= column < side,
    ensures
        0 <= row * side + column < side * side,
        (row * side + column) % side == column,
        (row * side + column) / side == row,
{
    vstd::arithmetic::div_mod::lemma_fundamental_div_mod_converse(
        row * side + column,
        side,
        row,
        column,
    );
    assert(row * side + column < side * side) by (nonlinear_arith)
        requires
            0 <= row < side,
            0 <= column < side,
    ;
    assert(0 <= row * side) by (nonlinear_arith)
        requires
            0 <= row,
            0 < side,
    ;
}

/// The number of a cell splits into a row and a column of the grid.
proof fn lemma_index_parts(i: int, side: int)
    requires
        0 < side,
        0 <= i < side * side,
    ensures
        0 <= i % side < side,
        0 <= i / side < side,
        i == (i / side) * side + i % side,
{
    vstd::arithmetic::div_mod::lemma_fundamental_div_mod(i, side);
    vstd::arithmetic::div_mod::lemma_mod_bound(i, side);
    let q = i / side;
    let r = i % side;
    assert(i == side * q + r);
    assert(q >= 0 && q < side) by (nonlinear_arith)
        requires
            i == side * q + r,
            0 <= r < side,
            0 <= i < side * side,
            0 < side,
    ;
    assert(side * q == q * side) by (nonlinear_arith);
}

/// The coordinate of a row or column, and half a brick to each side of it,
/// lie far within the range of the coordinates.
proof fn lemma_coord_bounded(brick_width: int, grid_count: int, index: int)
    requires
        0 <= brick_width <= u16::MAX,
        0 <= grid_count <= u16::MAX,
        0 <= index <= grid_count,
    ensures
        -4_294_836_225_000_000 <= cell_coord(brick_width, grid_count, index)
            <= 4_294_836_225_000_000,
        0 <= brick_width * SUBUNITS / 2 <= 32_767_500_000,
{
    let d = index - grid_count / 2;
    assert(-65535 * 65535 <= d * brick_width <= 65535 * 65535) by (nonlinear_arith)
        requires
            -65535 <= d <= 65535,
            0 <= brick_width <= 65535,
    ;
}

/// The coordinate, in sub-units, of row or column `index`.
fn coord(brick_width: u16, grid_count: u16, index: u16) -> (x: i64)
    ensures
        x == cell_coord(brick_width as int, grid_count as int, index as int),
{
    let d: i64 = index as i64 - (grid_count / 2) as i64;
    let width: i64 = brick_width as i64;
    assert(-65535 * 65535 <= d * width <= 65535 * 65535) by (nonlinear_arith)
        requires
            -65535 <= d <= 65535,
            0 <= width <= 65535,
    ;
    d * width * SUBUNITS
}

} // verus!
