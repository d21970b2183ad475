//! Frame-undistortion pipeline control: per-frame transform parameters, the
//! parameter buffer, and the lifecycle of the GPU context that consumes them.

pub mod buffer;
pub mod error;
pub mod geometry;
pub mod ieee;
pub mod params;
pub mod pipeline;
pub mod player;
