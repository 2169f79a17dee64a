use vstd::prelude::*;

verus! {

/// The bit of the fence creation flags that creates a fence already signaled.
pub const FENCE_CREATE_SIGNALED: u32 = 1;

/// What is known of a fence's state on the device.
#[derive(Clone, Copy, Debug, PartialEq, Eq, Structural)]
pub enum FenceStatus {
    /// Reset and not handed to any submission.
    Unsignaled,
    /// Handed to a submission that may still be executing.
    Pending,
    /// Known to be signaled: created signaled, or waited on.
    Signaled,
}

/// A CPU-waitable completion signal, identified by its device handle.
///
/// `can_wait` tells whether a wait on the device fence is still owed.
#[derive(Clone, Copy, Debug, PartialEq, Eq, Structural)]
pub struct Fence {
    pub can_wait: bool,
    pub fence: u64,
    pub status: FenceStatus,
}

impl Fence {
    /// The flag never hides outstanding work, and never asks to wait on a fence
    /// that no submission or creation will signal.
    pub open spec fn wf(&self) -> bool {
        &&& self.status == FenceStatus::Pending ==> self.can_wait
        &&& self.status == FenceStatus::Unsignaled ==> !self.can_wait
    }

    /// Whether a wait on this fence would block on a submission.
    pub open spec fn blocks(&self) -> bool {
        self.can_wait && self.status == FenceStatus::Pending
    }

    /// The fence after `wait`.
    pub open spec fn waited(self) -> Fence {
        if self.can_wait {
            Fence { can_wait: false, fence: self.fence, status: FenceStatus::Signaled }
        } else {
            self
        }
    }

    /// The fence after `reset`.
    pub open spec fn was_reset(self) -> Fence {
        Fence { can_wait: false, fence: self.fence, status: FenceStatus::Unsignaled }
    }

    /// A fence for the device handle `fence`, signaled when `flags` holds the signaled bit.
    pub fn new(fence: u64, flags: u32) -> (r: Fence)
        ensures
            r.wf(),
            r.fence == fence,
            r.can_wait == (flags & FENCE_CREATE_SIGNALED != 0),
            r.status == (if flags & FENCE_CREATE_SIGNALED != 0 {
                FenceStatus::Signaled
            } else {
                FenceStatus::Unsignaled
            }),
    {
        let can_wait = flags & FENCE_CREATE_SIGNALED != 0;
        let status = if can_wait {
            FenceStatus::Signaled
        } else {
            FenceStatus::Unsignaled
        };
        Fence { can_wait, fence, status }
    }

    pub fn unsignaled(fence: u64) -> (r: Fence)
        ensures
            r.wf(),
            r == (Fence { can_wait: false, fence, status: FenceStatus::Unsignaled }),
    {
        let r = Fence::new(fence, 0);
        assert(0u32 & FENCE_CREATE_SIGNALED == 0) by (bit_vector);
        r
    }

    pub fn signaled(fence: u64) -> (r: Fence)
        ensures
            r.wf(),
            r == (Fence { can_wait: true, fence, status: FenceStatus::Signaled }),
    {
        let r = Fence::new(fence, FENCE_CREATE_SIGNALED);
        assert(FENCE_CREATE_SIGNALED & FENCE_CREATE_SIGNALED != 0) by (bit_vector);
        r
    }

    /// Decides the wait on the device fence. Returns whether the caller must wait
    /// on the device fence, without timeout; afterwards no wait is owed.
    pub fn wait(&mut self) -> (r: bool)
        requires
            old(self).wf(),
        ensures
            r == old(self).can_wait,
            *final(self) == old(self).waited(),
            final(self).wf(),
            !final(self).can_wait,
            final(self).status != FenceStatus::Pending,
    {
        if self.can_wait {
            self.can_wait = false;
            self.status = FenceStatus::Signaled;
            true
        } else {
            false
        }
    }

    /// Returns the fence to the unsignaled state, ready for a new submission.
    /// A fence still in use by a submission cannot be reset.
    pub fn reset(&mut self)
        requires
            old(self).wf(),
            old(self).status != FenceStatus::Pending,
        ensures
            *final(self) == old(self).was_reset(),
            final(self).wf(),
    {
        self.can_wait = false;
        self.status = FenceStatus::Unsignaled;
    }

    /// Records that the fence was handed to a submission as its completion token.
    pub fn submit(&mut self)
        requires
            old(self).wf(),
            old(self).status == FenceStatus::Unsignaled,
        ensures
            final(self).wf(),
            *final(self) == (Fence {
                can_wait: true,
                fence: old(self).fence,
                status: FenceStatus::Pending,
            }),
    {
        self.can_wait = true;
        self.status = FenceStatus::Pending;
    }
}

/// Two waits in a row without a reset and a new submission in between: the
/// second one does not wait at all.
pub proof fn lemma_wait_idempotent(f: Fence)
    requires
        f.wf(),
    ensures
        !f.waited().can_wait,
        !f.waited().blocks(),
        f.waited().waited() == f.waited(),
        f.waited().wf(),
{
}

/// A GPU-ordering token with no CPU-visible state, identified by its device handle.
#[derive(Clone, Copy, Debug, PartialEq, Eq, Structural)]
pub struct Semaphore {
    pub semaphore: u64,
}

impl Semaphore {
    pub fn new(semaphore: u64) -> (r: Semaphore)
        ensures
            r.semaphore == semaphore,
    {
        Semaphore { semaphore }
    }
}

} // verus!
