use crate::direction::{valid_turn, validate_next_direction, opposite, Direction};
use crate::food::{random_below, Food};
use crate::grid::{Grid, Point};
use crate::segment::Segment;
use crate::snake::{next_head, occupied_from, Snake};
use crate::snake_state::{classify, state, SnakeState};
use vstd::prelude::*;

verus! {

/// Milliseconds between ticks at the start of a game.
pub const UPDATE_MILLIS_START: u64 = 120;

/// How much shorter the interval gets each time food is eaten.
pub const UPDATE_MILLIS_CHANGE: u64 = 1;

/// The interval never gets shorter than this.
pub const UPDATE_MILLIS_MIN: u64 = 1;

/// The heading of a new snake.
pub const DEFAULT_DIRECTION: Direction = Direction::Right;

/// One game: the snake, the food, the latest classification, the latched
/// input, whether the game is over, and the tick interval.
#[derive(Debug)]
pub struct GameState {
    pub snake: Snake,
    pub food: Food,
    pub snake_state: SnakeState,
    pub input_direction: Direction,
    pub game_over: bool,
    pub update_millis: u64,
}

/// `p` is a cell of `g` that no segment of `s` takes.
pub open spec fn is_free(s: Seq<Segment>, g: Grid, p: Point) -> bool {
    g.contains(p) && !occupied_from(s, 0, p)
}

/// The cells of `g` in row-major order.
pub open spec fn all_cells(g: Grid) -> Seq<Point> {
    Seq::new(g.area() as nat, |i: int| g.cell(i))
}

/// The free cells of `g`, in row-major order.
pub open spec fn free_cells_of(s: Seq<Segment>, g: Grid) -> Seq<Point> {
    all_cells(g).filter(|p: Point| is_free(s, g, p))
}

/// Where the food goes after it was eaten: the free cell chosen by `pick`,
/// or where it was if no cell is free.
pub open spec fn respawned(s: Seq<Segment>, g: Grid, pick: int, food: Food) -> Food {
    let free = free_cells_of(s, g);
    if free.len() > 0 {
        Food { position: free[pick % free.len() as int] }
    } else {
        food
    }
}

/// The tick interval after food was eaten: one step shorter, but no shorter
/// than the floor.
pub open spec fn next_interval(m: u64) -> u64 {
    if m >= UPDATE_MILLIS_MIN + UPDATE_MILLIS_CHANGE {
        (m - UPDATE_MILLIS_CHANGE) as u64
    } else {
        UPDATE_MILLIS_MIN
    }
}

/// The latched direction after a key for `attempt` was pressed while the
/// head was heading `head`.
pub open spec fn turned(input: Direction, head: Direction, attempt: Direction) -> Direction {
    if valid_turn(attempt, head) {
        attempt
    } else {
        input
    }
}

/// The latched direction after `n` presses of the key for `attempt`.
pub open spec fn pressed(input: Direction, head: Direction, attempt: Direction, n: nat) -> Direction
    decreases n,
{
    if n == 0 {
        input
    } else {
        turned(pressed(input, head, attempt, (n - 1) as nat), head, attempt)
    }
}

/// `post` is `pre` after one tick, the food, if eaten, going to the free cell
/// chosen by `pick`.
///
/// A finished game stays as it is. Otherwise the head moves one cell in the
/// latched direction. Onto the food, the snake grows, the food moves to a
/// free cell and the interval shortens; elsewhere the tail follows. The
/// snake is then classified, and the game ends on a collision with itself.
pub open spec fn ticked(pre: GameState, post: GameState, pick: int) -> bool {
    let s = pre.snake@;
    let g = pre.snake.grid_spec();
    let h = next_head(s, g, pre.input_direction);
    &&& post.input_direction == pre.input_direction
    &&& post.snake.grid_spec() == g
    &&& if pre.game_over {
        &&& post.snake@ == s
        &&& post.food == pre.food
        &&& post.snake_state == pre.snake_state
        &&& post.game_over
        &&& post.update_millis == pre.update_millis
    } else {
        &&& if h.position == pre.food.position {
            &&& post.snake@ == seq![h] + s
            &&& post.food == respawned(post.snake@, g, pick, pre.food)
            &&& post.update_millis == next_interval(pre.update_millis)
        } else {
            &&& post.snake@ == seq![h] + s.drop_last()
            &&& post.food == pre.food
            &&& post.update_millis == pre.update_millis
        }
        &&& post.snake_state == classify(post.snake@, post.food.position)
        &&& post.game_over == (post.snake_state == SnakeState::Segment)
    }
}

/// The free cells of the snake's grid, in row-major order.
fn free_cells(snake: &Snake) -> (r: Vec<Point>)
    requires
        snake.wf(),
    ensures
        r@ == free_cells_of(snake@, snake.grid_spec()),
        forall|i: int| 0 <= i < r@.len() ==> is_free(snake@, snake.grid_spec(), #[trigger] r@[i]),
{
    let g = snake.grid();
    let w = g.width as usize;
    let ghost cells = all_cells(g);
    let ghost pred = |p: Point| is_free(snake@, g, p);
    assert((w as int) * (g.height as int) <= usize::MAX) by (nonlinear_arith)
        requires
            w as int == g.width as int,
            g.width * g.height <= isize::MAX,
    ;
    let n: usize = w * (g.height as usize);
    let mut r: Vec<Point> = Vec::new();
    let mut i: usize = 0;
    while i < n
        invariant
            g == snake.grid_spec(),
            g.wf(),
            w as int == g.width as int,
            n as int == g.area(),
            cells == all_cells(g),
            pred == (|p: Point| is_free(snake@, g, p)),
            i <= n,
            r@ == cells.take(i as int).filter(pred),
        decreases n - i,
    {
        assert((i as int) / (w as int) < g.height as int) by (nonlinear_arith)
            requires
                0 <= i < n,
                n as int == (w as int) * (g.height as int),
                w > 0,
        ;
        assert((i as int) / (w as int) <= i as int) by (nonlinear_arith)
            requires
                0 <= i,
                w > 0,
        ;
        let p = Point { x: (i % w) as isize, y: (i / w) as isize };
        assert(p == cells[i as int]);
        assert(cells.take(i as int + 1).drop_last() =~= cells.take(i as int));
        assert(cells.take(i as int + 1).last() == p);
        proof {
            reveal(Seq::filter);
        }
        if !snake.overlaps(&p) {
            r.push(p);
        }
        i = i + 1;
    }
    assert(cells.take(n as int) =~= cells);
    proof {
        assert forall|k: int| 0 <= k < r@.len() implies is_free(snake@, g, #[trigger] r@[k]) by {
            cells.lemma_filter_pred(pred, k);
        }
    }
    r
}

impl GameState {
    /// The game's state apart from the snake: the snake is well formed and
    /// the food lies on its grid.
    pub open spec fn wf(&self) -> bool {
        self.snake.wf() && self.snake.grid_spec().contains(self.food.position)
    }

    /// A new game on `grid`: a one-cell snake on `snake_coord` heading right,
    /// food on a random cell, the starting interval.
    pub fn new(snake_coord: Point, grid: Grid) -> (r: GameState)
        requires
            grid.wf(),
            grid.contains(snake_coord),
        ensures
            r.wf(),
            r.snake.grid_spec() == grid,
            r.snake@ == seq![Segment { position: snake_coord, direction: Direction::Right }],
            r.snake_state == classify(r.snake@, r.food.position),
            r.input_direction == DEFAULT_DIRECTION,
            !r.game_over,
            r.update_millis == UPDATE_MILLIS_START,
    {
        let snake = Snake::new(snake_coord, grid);
        let food = Food::random(grid.width, grid.height);
        let snake_state = state(&snake, &food);
        GameState {
            snake,
            food,
            snake_state,
            input_direction: DEFAULT_DIRECTION,
            game_over: false,
            update_millis: UPDATE_MILLIS_START,
        }
    }

    /// One tick, where eaten food goes to the free cell chosen by `food_pick`
    /// (its remainder by the number of free cells).
    pub fn advance(&mut self, food_pick: usize)
        requires
            old(self).wf(),
            old(self).snake@.len() < usize::MAX,
        ensures
            final(self).wf(),
            ticked(*old(self), *final(self), food_pick as int),
    {
        if self.game_over {
            return;
        }
        let head = self.snake.compute_next_head(self.input_direction).unwrap();
        if head.position == self.food.position {
            self.snake.compute_next_frame_with_new(head);
            let free = free_cells(&self.snake);
            if free.len() > 0 {
                self.food = Food::new(free[food_pick % free.len()]);
            }
            self.update_millis = if self.update_millis >= UPDATE_MILLIS_MIN + UPDATE_MILLIS_CHANGE {
                self.update_millis - UPDATE_MILLIS_CHANGE
            } else {
                UPDATE_MILLIS_MIN
            };
        } else {
            let _ = self.snake.compute_next_frame(head);
        }
        self.snake_state = state(&self.snake, &self.food);
        self.game_over = self.snake_state == SnakeState::Segment;
    }

    /// One tick, where eaten food goes to a free cell drawn at random.
    pub fn update(&mut self)
        requires
            old(self).wf(),
            old(self).snake@.len() < usize::MAX,
        ensures
            final(self).wf(),
            exists|pick: int| ticked(*old(self), *final(self), pick),
    {
        // A draw over the whole of usize, reduced by the number of free
        // cells, is uniform up to a bias below that number over the size
        // of usize.
        let pick = random_below(usize::MAX);
        self.advance(pick);
    }

    /// A key for `attempt` was pressed: it becomes the latched direction
    /// unless it reverses the head's heading.
    pub fn turn(&mut self, attempt: Direction)
        requires
            old(self).snake.wf(),
        ensures
            final(self).input_direction
                == turned(old(self).input_direction, old(self).snake@[0].direction, attempt),
            final(self).snake == old(self).snake,
            final(self).food == old(self).food,
            final(self).snake_state == old(self).snake_state,
            final(self).game_over == old(self).game_over,
            final(self).update_millis == old(self).update_millis,
    {
        let current = self.snake.head_direction().unwrap();
        if validate_next_direction(attempt, current) {
            self.input_direction = attempt;
        }
    }
}

/// Once the game is over, ticks change nothing: the snake, the food, the
/// interval and the classification stay, and the game stays over.
pub proof fn lemma_game_over_is_final(pre: GameState, post: GameState, pick: int)
    requires
        pre.game_over,
        ticked(pre, post, pick),
    ensures
        post.game_over,
        post.snake@ == pre.snake@,
        post.food == pre.food,
        post.update_millis == pre.update_millis,
        post.snake_state == pre.snake_state,
{
}

/// Pressing the key for the reverse of the head's heading, any number of
/// times, leaves the latched direction as it was.
pub proof fn lemma_reverse_presses_ignored(input: Direction, head: Direction, n: nat)
    ensures
        pressed(input, head, opposite(head), n) == input,
    decreases n,
{
    if n > 0 {
        lemma_reverse_presses_ignored(input, head, (n - 1) as nat);
    }
}

} // verus!
