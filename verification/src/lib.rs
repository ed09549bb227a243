//! Verified game rules of a first-person extraction game: the loadout tables
//! (weapons and armors with their exact stats and labels) and the step of the
//! pseudo-random generator that drives the game's randomness.

pub mod armor;
pub mod rng;
pub mod text;
pub mod weapon;
