//! Per-frame simulation of a small sprite playfield: directional input becomes a
//! velocity, velocities move entities inside clamped bounds, and entity positions
//! are staged on a double-buffered sprite table that becomes visible only at commit.
pub mod geometry;
pub mod input;
pub mod sprites;
pub mod entity;
pub mod motion;
pub mod world;
