//! A declarative convenience layer over a GPU-style device: typed buffers,
//! bind-group and pipeline builders, recorded render and compute passes, and
//! the per-frame timing and input bookkeeping that drives a sketch's update
//! loop.
//!
//! The GPU driver, the window system and the clock are outside collaborators:
//! this crate models the device, queue and surface as explicit values, so the
//! resource descriptors a builder produces and the command sequences a pass
//! records are plain data with proved contracts. A thin adapter can replay
//! them against a real device.

pub mod orchestrator;
pub mod sketch;
pub mod wgpu;
