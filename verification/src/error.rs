//! The error taxonomy of the frame loop, and how a caller should respond to
//! each kind.

use vstd::prelude::*;

verus! {

/// What went wrong during a frame: the device was lost, the presentation
/// surface no longer matches the swapchain, or the fence wait timed out.
#[derive(Clone, Copy, Debug, PartialEq, Eq, Structural)]
pub enum FrameError {
    DeviceLost,
    SurfaceOutOfDate,
    FenceTimeout,
}

/// The response a frame error calls for.
#[derive(Clone, Copy, Debug, PartialEq, Eq, Structural)]
pub enum Recovery {
    /// No recovery: propagate and terminate.
    Fatal,
    /// Retry the acquire/submit cycle.
    RetryFrame,
    /// Rebuild the swapchain and its framebuffers, then continue.
    RebuildSwapchain,
}

/// Classify a frame error: device loss is fatal, a fence timeout merits
/// retrying the frame, and an out-of-date surface a swapchain rebuild.
pub fn recovery_of(e: &FrameError) -> (r: Recovery)
    ensures
        e is DeviceLost ==> r is Fatal,
        e is FenceTimeout ==> r is RetryFrame,
        e is SurfaceOutOfDate ==> r is RebuildSwapchain,
    {
    match e {
        FrameError::DeviceLost => Recovery::Fatal,
        FrameError::FenceTimeout => Recovery::RetryFrame,
        FrameError::SurfaceOutOfDate => Recovery::RebuildSwapchain,
    }
}

} // verus!
