//! A verified core for a threaded video-frame delivery pipeline.
//!
//! Decoded frames travel from a decode stage through bounded queues to a
//! render driver: each frame's pixel format is inspected, planar YUV frames
//! are converted to packed RGBA, a texture cache reuses the GPU texture
//! while frame dimensions stay fixed, and a letterbox viewport centers the
//! image in the presentation surface without stretching it.
//!
//! The actual media decoding, GPU submission and windowing are external
//! collaborators; this crate holds the decisions and the pixel math, with
//! contracts, and a thin driver around it performs the outside work.

use vstd::prelude::*;

pub mod convert;
pub mod error;
pub mod frame;
pub mod media;
pub mod pixel;
pub mod presenter;
pub mod queue;
pub mod stages;
pub mod texture_cache;
pub mod viewport;

verus! {

/// Largest width or height, in pixels, that any frame, texture or surface
/// handled by this crate may have. Keeps every byte count and every aspect
/// cross product comfortably inside the machine integer types.
pub const MAX_DIM: u32 = 16384;

} // verus!
