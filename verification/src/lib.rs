//! A verified simulation core for a grid-based snake game: a segmented body
//! moves on a discrete 2-D grid, eats food that reappears at random free
//! cells, grows on eating, and dies on wall or self collision.

pub mod food;
pub mod game;
pub mod geometry;
pub mod overlay;
pub mod player;
