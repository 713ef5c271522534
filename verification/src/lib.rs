//! Core logic of a raymarched-scene frame pipeline.
//!
//! The renderer around this library drives a GPU compute pass that writes a
//! floating-point image and a quad pass that presents it. Everything that can
//! be stated over plain values is verified here: the camera's motion-intent
//! state, the tile-based dispatch sizing, the per-tick command sequence with
//! its producer/consumer barrier, the startup outcome handling, and the
//! fixed-rate pacing arithmetic. The host binary performs the GPU calls and
//! the floating-point integration that this library directs.

pub mod camera;
pub mod pipeline;
pub mod timing;
