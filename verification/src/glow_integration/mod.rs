//! Viewports that are painted with OpenGL.

pub mod app;
pub mod context;
