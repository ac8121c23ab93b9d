//! Game logic for small arcade prototypes: disc and paddle collisions,
//! scoring, paddle steering, and sprite-sheet animation state machines.
//!
//! Positions are integer world units, durations are nanoseconds.

pub mod geometry;
pub mod collisions;
pub mod ball;
pub mod timer;
pub mod animation;
pub mod player;
pub mod walker;
pub mod menu;
