//! Input handling and per-frame decisions for an orbiting camera.
//!
//! The geometry itself (angles, vectors, matrices) is floating point and
//! lives with the renderer; this library decides which keys drive which
//! camera intents, which steps a frame applies, and how window events are
//! answered.

pub mod input;
pub mod controller;
pub mod session;
