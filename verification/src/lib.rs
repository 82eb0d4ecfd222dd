//! Gameplay simulation core of a side-scrolling arcade runner.
//!
//! All quantities are integers. One time unit is a millisecond and one
//! distance unit is a millionth of a pixel, so a velocity is a number of
//! distance units per millisecond and an acceleration a number of distance
//! units per millisecond squared. With these units neither motion nor
//! gravity needs a division, and a value that would leave the range of its
//! type stays at the end of that range.

pub mod awards;
pub mod effects;
pub mod enemies;
pub mod game;
pub mod laws;
pub mod player;
mod random;
pub mod systems;
pub mod timer;
pub mod world;
