//! The native event loop of an immediate-mode ui: which window is repainted when, which viewports are
//! open, and what an event of the system leads to.
//!
//! This crate decides; a shell around it does what is decided. The shell waits for native events,
//! opens windows, runs the ui and paints it. It hands in plain values, and the native resources as
//! the opaque types of a [`backend::Backend`].
//!
//! An event goes through a [`run_loop::RunLoop`] in four steps: `dispatch` says who handles it,
//! `handled` takes the outcome, `heed` puts the result on the schedule, and `settle` says which windows
//! to redraw and how long to sleep. In between, the application handles it: `on_event` says what work it
//! needs, and `result_after` what it results in. The application is
//! [`glow_integration::app::GlowWinitApp`] if it is painted with OpenGL, and
//! [`wgpu_integration::app::WgpuWinitApp`] if it is painted with wgpu.

pub mod backend;
pub mod builder;
pub mod description;
pub mod event;
pub mod frame;
pub mod glow_integration;
pub mod maps;
pub mod options;
pub mod run_loop;
pub mod wgpu_integration;
