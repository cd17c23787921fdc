//! A grid-based snake game: the state of one game and the rules that advance
//! it one tick at a time, each with a proved contract.

pub mod food;
pub mod game;
pub mod grid;
pub mod laws;
pub mod snake;
