//! Core simulation logic for a 2D side-scrolling platformer: axis-aligned
//! rectangle overlap and penetration resolution, and the player kinematics
//! that consume it (gravity, per-axis collision correction, hook grabbing,
//! coin and checkpoint detection, animation selection).
//!
//! Positions, sizes and velocities are whole world units. The surrounding
//! engine hands the simulation already-resolved rectangles and input
//! snapshots and reads back the committed state once per tick.

pub mod anim;
pub mod player;
pub mod rect;
pub mod state;
