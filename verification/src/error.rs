//! The ways in which the pipeline declines to render a frame.

use vstd::prelude::*;

verus! {

/// Why the accelerated path was not taken. None of these is fatal: the frame
/// is skipped on this path and the next one is tried afresh.
#[derive(Clone, Copy, Debug, PartialEq, Eq, Structural)]
pub enum PipelineError {
    /// No GPU context exists.
    NotInitialized,
    /// The stabilization engine had no transforms for the frame's time.
    FillFailure,
    /// The renderer rejected the frame; the context stays usable.
    GpuFailure,
    /// The GPU context could not be created; the pipeline stays uninitialized.
    InitFailure,
}

} // verus!
