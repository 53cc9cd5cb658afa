use vstd::prelude::*;

verus! {

/// One of the four headings on the grid.
#[derive(Clone, Copy, PartialEq, Eq, Debug, Structural)]
pub enum Direction {
    Right,
    Left,
    Up,
    Down,
}

/// The heading that points the other way.
pub open spec fn opposite(d: Direction) -> Direction {
    match d {
        Direction::Right => Direction::Left,
        Direction::Left => Direction::Right,
        Direction::Up => Direction::Down,
        Direction::Down => Direction::Up,
    }
}

/// `a` and `b` point in exactly opposite ways.
pub open spec fn is_opposite(a: Direction, b: Direction) -> bool {
    a == opposite(b)
}

/// A turn from `current` to `attempt` is allowed unless it reverses the heading.
pub fn validate_next_direction(attempt: Direction, current: Direction) -> (r: bool)
    ensures
        r == valid_turn(attempt, current),
{
    match (attempt, current) {
        (Direction::Left, Direction::Right)
        | (Direction::Right, Direction::Left)
        | (Direction::Up, Direction::Down)
        | (Direction::Down, Direction::Up) => false,
        _ => true,
    }
}

/// A turn to `attempt` while heading `current` is allowed.
pub open spec fn valid_turn(attempt: Direction, current: Direction) -> bool {
    !is_opposite(attempt, current)
}

/// Turning back onto the reverse of a heading is always refused, and each of
/// the three other headings is always accepted.
pub proof fn lemma_reversal_rejected(h: Direction)
    ensures
        !valid_turn(opposite(h), h),
        forall|d: Direction| d != opposite(h) ==> valid_turn(d, h),
{
}

} // verus!
