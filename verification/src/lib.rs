//! Image-tensor pipeline for monocular depth estimation.
//!
//! The crate owns the deterministic parts of the pipeline: planning the
//! model input dimensions from a resize policy, resizing the source image,
//! laying samples out channel-first, turning the raw model output shape
//! into a two-dimensional depth grid, and assembling the final 16-bit
//! grayscale image. The inference engine itself and all file handling are
//! collaborators that live outside this crate.

pub mod args;
pub mod errors;
pub mod imgbuf;
pub mod model;
pub mod postprocessing;
pub mod preprocessing;
pub mod shape;
