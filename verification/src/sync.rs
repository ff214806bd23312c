//! The two synchronization primitives the renderer owns: a host-waitable
//! fence and a device-side semaphore, modeled by the one bit of state the
//! protocol depends on.

use vstd::prelude::*;

verus! {

/// Host-waitable completion signal. The device signals it when a submitted
/// command buffer has finished executing; the host resets it before reuse.
#[derive(Clone, Copy, Debug, PartialEq, Eq, Structural)]
pub struct Fence {
    pub signaled: bool,
}

impl Fence {
    /// The state a reset leaves behind, whatever held before.
    pub open spec fn spec_reset(self) -> Fence {
        Fence { signaled: false }
    }

    /// Create a fence in the given initial state.
    pub fn new(signaled: bool) -> (f: Fence)
        ensures
            f.signaled == signaled,
    {
        Fence { signaled }
    }

    /// Reset the fence to the unsignaled state. There is no error path:
    /// resetting an already-unsignaled fence changes nothing.
    pub fn reset(&mut self)
        ensures
            *final(self) == old(self).spec_reset(),
            !final(self).signaled,
            !old(self).signaled ==> *final(self) == *old(self),
    {
        self.signaled = false;
    }

    /// Record that the device has signaled the fence.
    pub fn mark_signaled(&mut self)
        ensures
            *final(self) == (Fence { signaled: true }),
    {
        self.signaled = true;
    }
}

/// Resetting a fence that is already unsignaled is a no-op.
pub proof fn lemma_reset_unsignaled_is_noop(f: Fence)
    requires
        !f.signaled,
    ensures
        f.spec_reset() == f,
{
}

/// Reset is idempotent: a second reset changes nothing further.
pub proof fn lemma_reset_idempotent(f: Fence)
    ensures
        f.spec_reset().spec_reset() == f.spec_reset(),
{
}

/// Device-side ordering signal. The swapchain-acquire operation signals it
/// and the next submission consumes it as a wait-dependency; `pending` holds
/// between those two points.
#[derive(Clone, Copy, Debug, PartialEq, Eq, Structural)]
pub struct Semaphore {
    pub pending: bool,
}

impl Semaphore {
    /// Create a semaphore with no acquire outstanding on it.
    pub fn new() -> (s: Semaphore)
        ensures
            !s.pending,
    {
        Semaphore { pending: false }
    }

    /// Record that an acquire operation will signal this semaphore. The
    /// single-in-flight design forbids reuse before the prior consumer
    /// has waited on it.
    pub fn attach_to_acquire(&mut self)
        requires
            !old(self).pending,
        ensures
            final(self).pending,
    {
        self.pending = true;
    }

    /// Record that a submission consumed the semaphore as its wait-dependency.
    pub fn consume(&mut self)
        requires
            old(self).pending,
        ensures
            !final(self).pending,
    {
        self.pending = false;
    }
}

} // verus!
