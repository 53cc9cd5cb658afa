use crate::direction::Direction;
use vstd::prelude::*;

verus! {

/// The integer type of grid coordinates.
pub type CoordT = isize;

/// Width of the playing field, in cells.
pub const GRID_WIDTH: CoordT = 30;

/// Height of the playing field, in cells.
pub const GRID_HEIGHT: CoordT = 20;

/// A cell of the grid.
#[derive(Clone, Copy, PartialEq, Eq, Debug, Structural)]
pub struct Point {
    pub x: CoordT,
    pub y: CoordT,
}

/// The size of the playing field.
#[derive(Clone, Copy, PartialEq, Eq, Debug, Structural)]
pub struct Grid {
    pub width: CoordT,
    pub height: CoordT,
}

impl Grid {
    /// Both sides are positive, and the cells can be counted and stepped
    /// through without overflow.
    pub open spec fn wf(self) -> bool {
        &&& 0 < self.width
        &&& 0 < self.height
        &&& self.width + self.width <= isize::MAX
        &&& self.height + self.height <= isize::MAX
        &&& self.width * self.height <= isize::MAX
    }

    pub open spec fn contains(self, p: Point) -> bool {
        0 <= p.x < self.width && 0 <= p.y < self.height
    }

    /// Number of cells.
    pub open spec fn area(self) -> int {
        self.width * self.height
    }

    /// The cell with row-major index `i`.
    pub open spec fn cell(self, i: int) -> Point {
        Point { x: (i % self.width as int) as isize, y: (i / self.width as int) as isize }
    }

    /// The field the game is played on by default.
    pub fn standard() -> (r: Grid)
        ensures
            r.wf(),
            r.width == GRID_WIDTH,
            r.height == GRID_HEIGHT,
    {
        Grid { width: GRID_WIDTH, height: GRID_HEIGHT }
    }

    /// The middle cell, where the snake starts by default.
    pub fn center(&self) -> (r: Point)
        requires
            self.wf(),
        ensures
            r.x == self.width / 2,
            r.y == self.height / 2,
            self.contains(r),
    {
        Point { x: self.width / 2, y: self.height / 2 }
    }
}

/// The cell one step from `p` in direction `d`, wrapped around the edges of `g`.
pub open spec fn step(p: Point, d: Direction, g: Grid) -> Point {
    match d {
        Direction::Up => Point { x: p.x, y: ((p.y - 1) % g.height as int) as isize },
        Direction::Down => Point { x: p.x, y: ((p.y + 1) % g.height as int) as isize },
        Direction::Left => Point { x: ((p.x - 1) % g.width as int) as isize, y: p.y },
        Direction::Right => Point { x: ((p.x + 1) % g.width as int) as isize, y: p.y },
    }
}

/// A step from a cell of the grid, in any direction, always lands on a cell of
/// the grid.
pub proof fn lemma_step_in_grid(p: Point, d: Direction, g: Grid)
    requires
        g.wf(),
        g.contains(p),
    ensures
        g.contains(step(p, d, g)),
{
}

} // verus!
