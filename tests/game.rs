use snake::arith::ModuloSigned;
use snake::food::Food;
use snake::grid::{Grid, Point, GRID_HEIGHT, GRID_WIDTH};
use snake::segment::Segment;
use snake::session::{GameState, UPDATE_MILLIS_START};
use snake::snake::Snake;
use snake::snake_state::{state, SnakeState};
use snake::{validate_next_direction, Direction};

fn pt(x: isize, y: isize) -> Point {
    Point { x, y }
}

fn grid(width: isize, height: isize) -> Grid {
    Grid { width, height }
}

/// A snake on `g` whose segments lie on `cells`, head first.
fn snake_on(g: Grid, cells: &[(isize, isize)], head_dir: Direction) -> Snake {
    let last = cells[cells.len() - 1];
    let mut s = Snake::new(pt(last.0, last.1), g);
    for k in (0..cells.len() - 1).rev() {
        let d = if k == 0 { head_dir } else { Direction::Right };
        s.compute_next_frame_with_new(Segment::new(pt(cells[k].0, cells[k].1), d));
    }
    s
}

fn game(snake: Snake, food: Point, input: Direction) -> GameState {
    let food = Food::new(food);
    let snake_state = state(&snake, &food);
    GameState {
        snake,
        food,
        snake_state,
        input_direction: input,
        game_over: false,
        update_millis: UPDATE_MILLIS_START,
    }
}

const ALL: [Direction; 4] = [Direction::Right, Direction::Left, Direction::Up, Direction::Down];

fn opposite(d: Direction) -> Direction {
    match d {
        Direction::Right => Direction::Left,
        Direction::Left => Direction::Right,
        Direction::Up => Direction::Down,
        Direction::Down => Direction::Up,
    }
}

#[test]
fn reversal_is_rejected_and_other_turns_accepted() {
    for h in ALL {
        for d in ALL {
            assert_eq!(validate_next_direction(d, h), d != opposite(h));
        }
    }
}

#[test]
fn modulo_wraps_into_range() {
    assert_eq!((-1isize).modulo(30), 29);
    assert_eq!(30isize.modulo(30), 0);
    assert_eq!(7isize.modulo(30), 7);
    assert_eq!(0isize.modulo(1), 0);
}

#[test]
fn next_head_wraps_at_every_edge() {
    let g = Grid::standard();
    assert_eq!((g.width, g.height), (GRID_WIDTH, GRID_HEIGHT));
    let corner = Snake::new(pt(0, 0), g);
    assert_eq!(corner.compute_next_head(Direction::Left).unwrap().position, pt(29, 0));
    assert_eq!(corner.compute_next_head(Direction::Up).unwrap().position, pt(0, 19));
    assert_eq!(corner.compute_next_head(Direction::Right).unwrap().position, pt(1, 0));
    assert_eq!(corner.compute_next_head(Direction::Down).unwrap().position, pt(0, 1));
    let far = Snake::new(pt(29, 19), g);
    assert_eq!(far.compute_next_head(Direction::Right).unwrap().position, pt(0, 19));
    assert_eq!(far.compute_next_head(Direction::Down).unwrap().position, pt(29, 0));
    assert_eq!(far.compute_next_head(Direction::Left).unwrap().direction, Direction::Left);
}

#[test]
fn every_step_stays_on_the_grid() {
    let g = grid(4, 3);
    for x in 0..4 {
        for y in 0..3 {
            let s = Snake::new(pt(x, y), g);
            for d in ALL {
                let p = s.compute_next_head(d).unwrap().position;
                assert!(0 <= p.x && p.x < 4 && 0 <= p.y && p.y < 3);
            }
        }
    }
}

#[test]
fn growing_adds_one_and_moving_keeps_length() {
    let g = grid(10, 10);
    let mut s = Snake::new(pt(5, 5), g);
    assert_eq!(s.len(), 1);
    s.compute_next_frame_with_new(Segment::new(pt(6, 5), Direction::Right));
    assert_eq!(s.len(), 2);
    assert_eq!(s.positions(), vec![pt(6, 5), pt(5, 5)]);
    assert_eq!(s.compute_next_frame(Segment::new(pt(7, 5), Direction::Right)), Some(()));
    assert_eq!(s.len(), 2);
    assert_eq!(s.positions(), vec![pt(7, 5), pt(6, 5)]);
}

#[test]
fn new_snake_has_one_segment_heading_right() {
    let s = Snake::new(pt(2, 3), grid(10, 10));
    assert_eq!(s.positions(), vec![pt(2, 3)]);
    assert_eq!(s.head_direction(), Some(Direction::Right));
    assert_eq!(s.head().unwrap().position(), pt(2, 3));
    assert_eq!(s.grid(), grid(10, 10));
}

#[test]
fn overlap_queries() {
    let s = snake_on(grid(10, 10), &[(5, 5), (5, 6), (4, 6)], Direction::Up);
    assert!(s.overlaps(&pt(5, 5)));
    assert!(s.overlaps(&pt(4, 6)));
    assert!(!s.overlaps(&pt(0, 0)));
    assert!(!s.overlaps_body(&pt(5, 5)));
    assert!(s.overlaps_body(&pt(5, 6)));
    assert!(s.overlaps_head(&pt(5, 5)));
    assert!(!s.overlaps_head(&pt(5, 6)));
    assert_eq!(s.head_direction(), Some(Direction::Up));
}

#[test]
fn classification_cases() {
    let g = grid(10, 10);
    let s = snake_on(g, &[(5, 5), (5, 6)], Direction::Up);
    assert_eq!(state(&s, &Food::new(pt(5, 5))), SnakeState::Food);
    assert_eq!(state(&s, &Food::new(pt(1, 1))), SnakeState::Nothing);
    let looped = snake_on(g, &[(5, 5), (5, 6), (5, 5)], Direction::Up);
    assert_eq!(state(&looped, &Food::new(pt(1, 1))), SnakeState::Segment);
    assert_eq!(state(&looped, &Food::new(pt(5, 5))), SnakeState::Food);
}

#[test]
fn looped_snake_is_a_collision_whatever_its_heading() {
    let g = grid(10, 10);
    for d in ALL {
        let s = snake_on(g, &[(5, 5), (5, 6), (6, 6), (6, 5), (5, 5)], d);
        assert_eq!(s.len(), 5);
        assert_eq!(state(&s, &Food::new(pt(0, 0))), SnakeState::Segment);
    }
}

#[test]
fn eating_grows_moves_food_and_shortens_interval() {
    let g = grid(10, 10);
    let mut gs = game(Snake::new(pt(5, 5), g), pt(6, 5), Direction::Right);
    assert_eq!(gs.snake_state, SnakeState::Nothing);
    gs.update();
    assert_eq!(gs.snake.positions(), vec![pt(6, 5), pt(5, 5)]);
    let f = gs.food.position();
    assert!(0 <= f.x && f.x < 10 && 0 <= f.y && f.y < 10);
    assert!(!gs.snake.overlaps(&f));
    assert_eq!(gs.update_millis, UPDATE_MILLIS_START - 1);
    assert!(!gs.game_over);
    assert_eq!(gs.snake_state, SnakeState::Nothing);
}

#[test]
fn eaten_food_goes_to_the_chosen_free_cell() {
    let g = grid(10, 10);
    let mut gs = game(Snake::new(pt(5, 5), g), pt(6, 5), Direction::Right);
    gs.advance(3);
    assert_eq!(gs.food, Food::new(pt(3, 0)));
    let mut wrapped = game(Snake::new(pt(5, 5), g), pt(6, 5), Direction::Right);
    wrapped.advance(98 + 3);
    assert_eq!(wrapped.food, Food::new(pt(3, 0)));
    let mut late = game(Snake::new(pt(5, 5), g), pt(6, 5), Direction::Right);
    late.advance(55);
    assert_eq!(late.food, Food::new(pt(7, 5)));
}

#[test]
fn interval_stops_at_its_floor() {
    let g = grid(10, 10);
    let mut gs = game(Snake::new(pt(5, 5), g), pt(6, 5), Direction::Right);
    gs.update_millis = 1;
    gs.advance(0);
    assert_eq!(gs.snake.len(), 2);
    assert_eq!(gs.update_millis, 1);
}

#[test]
fn full_grid_leaves_food_in_place() {
    let g = grid(2, 1);
    let mut gs = game(Snake::new(pt(0, 0), g), pt(1, 0), Direction::Right);
    gs.advance(0);
    assert_eq!(gs.snake.positions(), vec![pt(1, 0), pt(0, 0)]);
    assert_eq!(gs.food, Food::new(pt(1, 0)));
    assert_eq!(gs.snake_state, SnakeState::Food);
}

#[test]
fn plain_move_follows_the_latched_direction() {
    let g = grid(10, 10);
    let mut gs = game(snake_on(g, &[(5, 5), (4, 5)], Direction::Right), pt(0, 0), Direction::Down);
    gs.advance(0);
    assert_eq!(gs.snake.positions(), vec![pt(5, 6), pt(5, 5)]);
    assert_eq!(gs.snake.head_direction(), Some(Direction::Down));
    assert_eq!(gs.food, Food::new(pt(0, 0)));
    assert_eq!(gs.update_millis, UPDATE_MILLIS_START);
    assert!(!gs.game_over);
}

#[test]
fn reverse_presses_never_change_the_latch() {
    let g = grid(10, 10);
    let mut gs = game(Snake::new(pt(5, 5), g), pt(0, 0), Direction::Right);
    for _ in 0..5 {
        gs.turn(Direction::Left);
        assert_eq!(gs.input_direction, Direction::Right);
    }
    gs.turn(Direction::Up);
    assert_eq!(gs.input_direction, Direction::Up);
    for _ in 0..5 {
        gs.turn(Direction::Left);
        assert_eq!(gs.input_direction, Direction::Up);
    }
}

#[test]
fn running_into_the_body_ends_the_game_in_one_tick() {
    let g = grid(10, 10);
    let s = snake_on(g, &[(5, 5), (5, 6), (4, 6)], Direction::Up);
    let mut gs = game(s, pt(0, 0), Direction::Down);
    assert_eq!(gs.snake_state, SnakeState::Nothing);
    gs.advance(0);
    assert!(gs.game_over);
    assert_eq!(gs.snake_state, SnakeState::Segment);
    let after = gs.snake.positions();
    assert_eq!(after, vec![pt(5, 6), pt(5, 5), pt(5, 6)]);
    for _ in 0..3 {
        gs.update();
        assert!(gs.game_over);
        assert_eq!(gs.snake.positions(), after);
        assert_eq!(gs.food, Food::new(pt(0, 0)));
    }
}

#[test]
fn new_game_starts_in_the_middle() {
    let g = Grid::standard();
    let c = g.center();
    assert_eq!(c, pt(15, 10));
    let gs = GameState::new(c, g);
    assert_eq!(gs.snake.positions(), vec![pt(15, 10)]);
    assert_eq!(gs.input_direction, Direction::Right);
    assert_eq!(gs.update_millis, UPDATE_MILLIS_START);
    assert!(!gs.game_over);
    let f = gs.food.position();
    assert!(0 <= f.x && f.x < 30 && 0 <= f.y && f.y < 20);
}

#[test]
fn random_food_lies_in_range() {
    for _ in 0..200 {
        let f = Food::random(3, 2).position();
        assert!(0 <= f.x && f.x < 3 && 0 <= f.y && f.y < 2);
    }
    assert_eq!(Food::random(1, 1).position(), pt(0, 0));
}

#[test]
fn segment_accessors() {
    let s = Segment::new(pt(1, 2), Direction::Down);
    assert_eq!(s.position(), pt(1, 2));
    assert_eq!(s.direction(), Direction::Down);
}
