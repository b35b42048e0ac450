//! The rules, state and drawing logic of a two-player duel on one screen.
//!
//! Two players keep to the left and right halves of a walled field with a
//! bush in the middle. Each walks, aims up, level or down, and fires a bullet
//! that bounces off the walls; a bullet that strikes the opponent scores a
//! hit and pauses the game for a second, and ten hits end it. The library
//! holds the game state and its rules, and describes each frame as a list of
//! paint commands; the program around it owns the window, the keyboard and
//! the clock.
pub mod bits;
pub mod geometry;
pub mod sprites;
pub mod obstacle;
pub mod sherrif;
pub mod bullet;
pub mod render;
pub mod world;
