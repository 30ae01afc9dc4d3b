//! A turn-based siege between two groups of catapults and a wall, decided
//! exactly over 256-bit unsigned inputs.

pub mod abi;
pub mod battle;
pub mod laws;
pub mod model;
pub mod uint;
