use vstd::prelude::*;

verus! {

/// Everything that can go wrong in one pipeline invocation. Every failure
/// is terminal for the current request; nothing is retried.
#[derive(Clone, Copy, Debug, PartialEq, Eq, Structural)]
pub enum DepthError {
    /// The source image could not be read or decoded.
    ImageLoadError,
    /// A rank-3 model output whose leading dimension is not 1; carries the
    /// offending batch dimension.
    UnexpectedBatchSize(usize),
    /// A rank-4 model output whose two leading dimensions are not both 1;
    /// carries the offending batch and channel dimensions.
    UnexpectedShape(usize, usize),
    /// A model output of any rank other than 3 or 4; carries the rank.
    UnsupportedRank(usize),
    /// The inference engine reported a failure.
    InferenceFailed,
    /// The finished image could not be written.
    ImageSaveError,
    /// A buffer did not match the dimensions it was declared with.
    InvariantViolation,
}

} // verus!
