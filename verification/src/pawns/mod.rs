//! The pawns a player can steer.

pub mod fly;
pub mod fps;
