//! Simulation core of a side-scrolling arcade game: an avatar falls under
//! gravity, is boosted upward on a flap input, and must pass through the gaps
//! of a stream of obstacle pairs that scroll leftward across a fixed viewport.
//!
//! All coordinates and velocities are fixed-point integers in milliunits
//! (1/1000 of a world unit), so that every physics step is exact. Velocities
//! are per-frame displacements; gravity alone scales with the elapsed frame
//! time, given in milliseconds.

pub mod params;
pub mod timing;
pub mod avatar;
pub mod scroll;
pub mod obstacles;
pub mod collision;
pub mod world;
