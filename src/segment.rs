use crate::direction::Direction;
use crate::grid::Point;
use vstd::prelude::*;

verus! {

/// One cell taken by the snake, with the heading it was entered in.
#[derive(Clone, Copy, Debug)]
pub struct Segment {
    pub position: Point,
    pub direction: Direction,
}

impl Segment {
    pub fn new(position: Point, direction: Direction) -> (r: Segment)
        ensures
            r.position == position,
            r.direction == direction,
    {
        Segment { position, direction }
    }

    pub fn position(&self) -> (r: Point)
        ensures
            r == self.position,
    {
        self.position
    }

    pub fn direction(&self) -> (r: Direction)
        ensures
            r == self.direction,
    {
        self.direction
    }
}

} // verus!
