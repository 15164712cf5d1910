pub mod food;
pub mod game;
pub mod grid;
pub mod snake;
