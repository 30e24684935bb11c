use vstd::prelude::*;

verus! {

/// A reference to a kernel object slot, with the badge stamped on it, if any.
///
/// The slot is opaque to the library: only the kernel gives it meaning.
#[derive(Debug, Clone, Copy, PartialEq, Eq, Structural)]
pub struct CapHandle {
    pub cptr: u64,
    pub badge: Option<u64>,
}

impl CapHandle {
    /// A handle to slot `cptr`, without a badge.
    pub fn new(cptr: u64) -> (r: CapHandle)
        ensures
            r.cptr == cptr,
            r.badge is None,
    {
        CapHandle { cptr, badge: None }
    }

    /// A handle to slot `cptr` carrying `badge`.
    pub fn badged(cptr: u64, badge: u64) -> (r: CapHandle)
        ensures
            r.cptr == cptr,
            r.badge == Some(badge),
    {
        CapHandle { cptr, badge: Some(badge) }
    }
}

} // verus!
