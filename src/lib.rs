//! Per-frame orchestration of a VR overlay runtime: deferred tasks, device
//! refresh timing, pointer interaction, pointer-ray visuals and frame pacing.
//!
//! Time is counted in microseconds and distances in millionths of a world
//! unit, so that every decision of the frame loop is made on integers.
pub mod pacing;
pub mod tasks;
pub mod refresh;
pub mod interaction;
pub mod lines;
pub mod frame;
