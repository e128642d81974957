//! Rendering core for spherical particles drawn as shaded, depth-correct discs.
//!
//! The crate decides what is sent to the graphics device and in which order:
//! buffer contents and their growth, the commands of a render pass and the
//! steps of a frame. A backend replays these decisions on a device.

pub mod element;
pub mod gpubuf;
pub mod render_pipeline;
pub mod atom_renderer;
pub mod render;
