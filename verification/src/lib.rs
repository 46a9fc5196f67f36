//! Draw commands for simple two-dimensional sketches.
//!
//! The crate describes *what* a frame draws and *when* the next one is due, as
//! plain values. A rendering backend uploads the vertices, binds the uniforms
//! and issues the calls; nothing here talks to a window or a GPU.

pub mod color;
pub mod command;
pub mod pacing;
pub mod shape;
