use crate::grid::{CoordT, Point};
use vstd::prelude::*;

verus! {

/// Relies on rand's `thread_rng` and `Rng::gen_range(0, n)`: a value in
/// `[0, n)`; `gen_range` panics when the range is empty.
#[verifier::external_body]
pub(crate) fn random_below(n: usize) -> (r: usize)
    requires
        n > 0,
    ensures
        r < n,
{
    rand::Rng::gen_range(&mut rand::thread_rng(), 0, n)
}

/// The item the snake eats.
#[derive(Clone, Copy, PartialEq, Eq, Debug, Structural)]
pub struct Food {
    pub position: Point,
}

impl Food {
    pub fn new(point: Point) -> (r: Food)
        ensures
            r.position == point,
    {
        Food { position: point }
    }

    /// Food on a cell drawn at random from `[0, max_w) x [0, max_h)`.
    pub fn random(max_w: CoordT, max_h: CoordT) -> (r: Food)
        requires
            max_w > 0,
            max_h > 0,
        ensures
            0 <= r.position.x < max_w,
            0 <= r.position.y < max_h,
    {
        let x = random_below(max_w as usize);
        let y = random_below(max_h as usize);
        Food { position: Point { x: x as isize, y: y as isize } }
    }

    pub fn position(&self) -> (r: Point)
        ensures
            r == self.position,
    {
        self.position
    }
}

} // verus!
