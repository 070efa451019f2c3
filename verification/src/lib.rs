//! Rules of a snake game played on a square grid by a human or by an
//! evolved neural controller: the board, the snake's movement, the apple,
//! the game loop's decisions, the controller's discrete senses and the
//! selection step of the evolution.

pub mod grid;
pub mod random;
pub mod snake;
pub mod apple;
pub mod game;
pub mod senses;
pub mod evolution;
