//! The phases of one tick, each a function on the data that it reads and
//! changes.

pub mod events;
pub mod gameplay;
pub mod input;
pub mod physics;
pub mod spawning;
pub mod visual_effects;
