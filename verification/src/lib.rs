//! Verified core of a real-time particle renderer: uniform buffer layouts,
//! shader change detection, the render pipeline's reload state machine and the
//! per-frame command sequence.
//!
//! The device itself is reached by the caller. Every function here maps plain
//! values and opaque handles to the descriptors and commands that the caller
//! hands to the device.

pub mod application;
pub mod camera;
pub mod particle_renderer;
pub mod pipeline;
pub mod screen;
pub mod shader;
pub mod uniformbuffer;
