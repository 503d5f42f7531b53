//! The rules of a grid snake game: a walled board, a snake that moves one
//! cell per tick and grows on food, food placement, and the playing session.

pub mod grid;
pub mod snake;
pub mod food;
pub mod game;
pub mod laws;
