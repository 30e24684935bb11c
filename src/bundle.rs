use vstd::prelude::*;
use crate::cap::CapHandle;
use crate::error::CapError;

verus! {

/// A temporary container capability holding `num_frames` frame capabilities,
/// moved across the single capability slot of a message in one transfer.
pub struct CapBundle {
    pub bundle_cnode: CapHandle,
    pub num_frames: usize,
    pub revoked: bool,
}

impl CapBundle {
    /// A live bundle of `num_frames` frames held in `bundle_cnode`.
    pub fn new(bundle_cnode: CapHandle, num_frames: usize) -> (r: CapBundle)
        ensures
            r.bundle_cnode == bundle_cnode,
            r.num_frames == num_frames,
            !r.revoked,
            r.live_frames() == num_frames,
    {
        CapBundle { bundle_cnode, num_frames, revoked: false }
    }

    /// How many of the contained frames are still reachable.
    pub open spec fn live_frames(&self) -> nat {
        if self.revoked {
            0
        } else {
            self.num_frames as nat
        }
    }

    /// Records the outcome `kernel_rc` of the kernel revoke of the container:
    /// zero destroys every contained frame; any other code is `RevokeFailed`
    /// and leaves the bundle live.
    pub fn revoke(&mut self, kernel_rc: u32) -> (r: Result<(), CapError>)
        ensures
            kernel_rc == 0 ==> r is Ok && final(self).revoked && final(self).live_frames() == 0,
            kernel_rc != 0 ==> r == Err::<(), CapError>(CapError::RevokeFailed) && *final(self)
                == *old(self),
            final(self).bundle_cnode == old(self).bundle_cnode,
            final(self).num_frames == old(self).num_frames,
    {
        if kernel_rc != 0 {
            return Err(CapError::RevokeFailed);
        }
        self.revoked = true;
        Ok(())
    }
}

} // verus!
