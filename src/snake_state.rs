use crate::food::Food;
use crate::grid::Point;
use crate::segment::Segment;
use crate::snake::{occupied_from, Snake};
use vstd::prelude::*;

verus! {

/// What the snake's head lies on.
#[derive(Clone, Copy, PartialEq, Eq, Debug, Structural)]
pub enum SnakeState {
    /// Another segment of the snake: the game is lost.
    Segment,
    /// The food.
    Food,
    /// Nothing of note.
    Nothing,
}

/// The state of the non-empty snake `s` with food on `food`.
pub open spec fn classify(s: Seq<Segment>, food: Point) -> SnakeState {
    if s[0].position == food {
        SnakeState::Food
    } else if occupied_from(s, 1, s[0].position) {
        SnakeState::Segment
    } else {
        SnakeState::Nothing
    }
}

/// Classifies the snake against the food: food first, then its own body.
pub fn state(snake: &Snake, food: &Food) -> (r: SnakeState)
    requires
        snake.wf(),
    ensures
        r == classify(snake@, food.position),
{
    if snake.overlaps_head(&food.position) {
        SnakeState::Food
    } else if snake.overlaps_body(&snake.head().unwrap().position) {
        SnakeState::Segment
    } else {
        SnakeState::Nothing
    }
}

/// A head on the food classifies as `Food`; a head elsewhere that lies on a
/// segment at index one or later classifies as `Segment`; every other
/// non-empty snake classifies as `Nothing`.
pub proof fn lemma_classification(s: Seq<Segment>, food: Point, i: int)
    requires
        s.len() > 0,
    ensures
        s[0].position == food ==> classify(s, food) == SnakeState::Food,
        s[0].position != food && 1 <= i < s.len() && s[i].position == s[0].position
            ==> classify(s, food) == SnakeState::Segment,
        s[0].position != food && (forall|j: int| 1 <= j < s.len() ==> #[trigger] s[j].position != s[0].position)
            ==> classify(s, food) == SnakeState::Nothing,
{
}

} // verus!
