//! Capability-mediated synchronous IPC transport with session-scoped
//! capability lifecycle management.
//!
//! The library holds the decisions of the transport: message encoding within
//! the kernel's message-register capacity, request dispatch, per-session
//! derivation quotas and revocation, and badge assignment for notification
//! capabilities. The kernel primitives themselves (call, receive, reply,
//! mint, revoke) are performed by the caller, which hands their outcomes back.
pub mod badge;
pub mod bundle;
pub mod cap;
pub mod codec;
pub mod error;
pub mod framing;
pub mod registry;
pub mod session;
pub mod stats;
pub mod transport;
