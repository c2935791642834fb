//! The simulation core of a terminal snake game: board geometry, the snake's
//! body and movement, collision predicates, food placement, the per-tick state
//! machine of one round and the decisions of the input dispatcher.
pub mod direction;
pub mod snake;
pub mod board;
pub mod boundaries_check;
pub mod food_generator;
pub mod round;
pub mod input;
