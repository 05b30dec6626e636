//! Core of an endless-runner game: the character's state machine and physics,
//! obstacles and collision handling, and the procedural segment generator.
pub mod engine;
pub mod game;
pub mod geometry;
pub mod obstacle;
pub mod segments;
pub mod sheet;
pub mod state;
