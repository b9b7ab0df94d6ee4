//! Core of a GPU-backed 2D image/texture resource manager.
//!
//! The library owns the lifecycle of renderable image data: raw RGBA pixels
//! or encoded file bytes are validated, allocated as a texture resource in a
//! rendering context, drawn through a shared pipeline binder, and read back
//! into CPU memory or re-encoded. The rendering backend itself (device,
//! windowing, shader pipeline) is an external collaborator; here it is
//! modelled as an arena of GPU resources indexed by stable ids, so that the
//! validation, binding and readback rules can be stated and proved exactly.

pub mod error;
pub mod render;
pub mod image;
pub mod codec;
pub mod laws;
