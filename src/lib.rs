//! A grid snake game: movement with wraparound, growth, self-collision and
//! the per-tick game rules, with their contracts proved.

pub mod arith;
pub mod direction;
pub mod grid;
pub mod segment;
pub mod food;
pub mod snake;
pub mod snake_state;
pub mod session;

pub use arith::ModuloSigned;
pub use direction::{validate_next_direction, Direction};
pub use grid::{CoordT, Grid, Point};
pub use segment::Segment;
pub use food::Food;
pub use snake::Snake;
pub use snake_state::{state, SnakeState};
pub use session::GameState;
