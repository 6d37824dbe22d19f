//! Procedural texture synthesis for a small solar-system scene: banded
//! gas-giant surfaces and a seamless starfield cubemap, produced as RGBA
//! pixel buffers.

pub mod buffer;
pub mod cubemap;
pub mod starfield;
pub mod surface;
pub mod presets;
pub mod controls;
mod rng;

