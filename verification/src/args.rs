use vstd::prelude::*;

verus! {

/// Which model variant the pipeline runs.
#[derive(Clone, Copy, Debug, PartialEq, Eq, Structural)]
pub enum ModelType {
    /// Fixed 518x518 input; the source image is squashed to that square.
    Static,
    /// Flexible input size; the aspect ratio is kept and each dimension is
    /// floored to a multiple of the network stride.
    Dynamic,
}

/// One pipeline invocation, as selected by the caller. The command-line
/// front end fills this in and hands it over unchanged.
pub struct Args {
    /// Model variant to use.
    pub model_type: ModelType,
    /// Path of the source image.
    pub input: String,
    /// Path the 16-bit depth map is written to.
    pub output: String,
    /// Resample the finished depth map back to the source dimensions.
    pub resize_to_input: bool,
    /// Number of intra-op threads for the inference engine.
    pub threads: usize,
    /// Ask the engine for the CUDA execution provider.
    pub use_cuda: bool,
    /// Ask the engine for the TensorRT execution provider.
    pub use_tensorrt: bool,
}

} // verus!
