//! The device-facing layer: controller, resource builders, pipelines and
//! recorded passes.

pub mod bind;
pub mod buffer;
pub mod compute_pass;
pub mod controller;
pub mod encoder;
pub mod pipeline;
pub mod render_pass;
pub mod texture;
