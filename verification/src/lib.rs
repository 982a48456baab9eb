//! Host-side core of a progressive path tracer: the camera-facing input
//! decisions, the fixed-layout frame uniform block, and the accumulation
//! state machine that selects which of two images is read as history and
//! which is written as the new accumulation target each frame.

pub mod camera;
pub mod math;
pub mod render;
