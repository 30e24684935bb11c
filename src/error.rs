use vstd::prelude::*;

verus! {

/// Every way in which an operation of this library can fail.
#[derive(Debug, Clone, Copy, PartialEq, Eq, Structural)]
pub enum CapError {
    /// A kernel primitive reported failure, with its error code.
    Sel4Error(u32),
    /// A derivation was asked for deeper than the session allows.
    MaxDepthExceeded,
    /// The session's derivation quota is used up.
    MaxDerivationsExceeded,
    /// The encoded message does not fit in the message registers.
    MessageTooLarge,
    /// An operation needed an attached capability and none came.
    MissingCapability,
    /// A payload could not be decoded, or named an unknown operation.
    TransferFailed,
    /// The kernel could not revoke a capability; rights may still be reachable.
    RevokeFailed,
}

} // verus!
