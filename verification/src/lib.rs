//! Host-side system interface shared with a guest application: the
//! storage slot that lends a storage handle to the guest for a bounded time,
//! and the answers that the host gives when the guest polls a pending call.

pub mod storage_slot;
pub mod polling;
pub mod call_request;
