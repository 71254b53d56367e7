//! Static configuration consumed when a session is built.

use vstd::prelude::*;

verus! {

/// Call-level timeout defaults, in milliseconds.
#[derive(Debug, Clone, Copy, PartialEq, Eq, Structural)]
pub struct RpcOptions {
    /// Applied to every new session build.
    pub connect_timeout_ms: u64,
    /// Default deadline for query calls.
    pub read_timeout_ms: u64,
    /// Default deadline for write and route calls.
    pub write_timeout_ms: u64,
}

/// Connection-level configuration applied when a session is built.
#[derive(Debug, Clone, Copy, PartialEq, Eq, Structural)]
pub struct RpcConfig {
    /// When true, keep-alive probing runs while the connection is idle, with
    /// the timeout and interval below; when false, keep-alive is disabled.
    pub keep_alive_while_idle: bool,
    pub keep_alive_timeout_ms: u64,
    pub keep_alive_interval_ms: u64,
}

} // verus!
