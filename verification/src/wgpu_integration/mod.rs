//! Viewports that are painted with wgpu.

pub mod app;
pub mod shared;
