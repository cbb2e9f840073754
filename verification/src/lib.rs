//! A small verified core for a sprite-sheet animation demo: the frame
//! layout of a texture atlas, a repeating timer, the step counters that
//! drive the animation, frame selection from input, horizontal movement,
//! and the loading-state flow. Engine integration lives outside.

pub mod animation;
pub mod cycle;
pub mod grid;
pub mod input;
pub mod loading;
pub mod movement;
pub mod timer;
