//! Smooth presentation of a fixed-rate simulation: each entity keeps the two
//! most recently finished snapshots of a sub-state, and every frame shows a
//! blend of the two.

pub mod buffer;
pub mod interpolate;
pub mod kinds;
pub mod transform;
pub mod schedule;
pub mod timeline;
pub mod session;
pub mod command;
pub mod pawns;
pub mod clients;
