//! Per-call request context.

use vstd::prelude::*;

verus! {

/// Everything a single call carries besides its message: the credentials and
/// an optional deadline override in milliseconds. Constructed fresh by the
/// caller for every call; never persisted.
pub struct RpcContext {
    pub tenant: String,
    pub token: String,
    pub timeout_ms: Option<u64>,
}

impl RpcContext {
    /// A fresh context with the given credentials and no deadline override.
    pub fn new(tenant: String, token: String) -> (r: RpcContext)
        ensures
            r.tenant@ == tenant@,
            r.token@ == token@,
            r.timeout_ms is None,
    {
        RpcContext { tenant, token, timeout_ms: None }
    }

    /// The same context with an explicit per-call deadline.
    pub fn with_timeout_ms(self, timeout_ms: u64) -> (r: RpcContext)
        ensures
            r.tenant@ == self.tenant@,
            r.token@ == self.token@,
            r.timeout_ms == Some(timeout_ms),
    {
        RpcContext { timeout_ms: Some(timeout_ms), ..self }
    }
}

} // verus!
