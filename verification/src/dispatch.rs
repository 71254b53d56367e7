//! Per-call dispatch policy: deadline selection and request preparation.
//!
//! For each call the dispatcher validates the credentials, computes the
//! effective deadline, and attaches the authentication metadata. The
//! embedding application then performs the transport call with the prepared
//! deadline and metadata, and feeds the outcome through
//! [`crate::response::complete_call`].

use vstd::prelude::*;

use crate::auth::{
    invalid_tenant_msg, invalid_token_msg, metadata_value_ok, AuthInterceptor,
    RPC_HEADER_TENANT_KEY,
};
use crate::context::RpcContext;
use crate::errors::{AuthCode, Error};
use crate::session::Session;

verus! {

/// The three operation kinds exposed to callers.
#[derive(Debug, Clone, Copy, PartialEq, Eq, Structural)]
pub enum OpKind {
    Query,
    Write,
    /// Topology lookup; timed like a write call, to which it is
    /// administratively similar.
    Route,
}

/// Default deadline of an operation kind when the context carries no
/// explicit timeout: queries use the session's read default, writes and
/// routes its write default.
pub open spec fn spec_default_timeout_ms(session: Session, op: OpKind) -> u64 {
    match op {
        OpKind::Query => session.default_read_timeout_ms,
        OpKind::Write => session.default_write_timeout_ms,
        OpKind::Route => session.default_write_timeout_ms,
    }
}

/// Effective deadline of one call: the context's explicit timeout when
/// present, else the operation kind's default.
pub open spec fn spec_effective_timeout_ms(
    timeout_ms: Option<u64>,
    session: Session,
    op: OpKind,
) -> u64 {
    match timeout_ms {
        Some(t) => t,
        None => spec_default_timeout_ms(session, op),
    }
}

/// Computes the effective deadline of one call: an explicit per-call timeout
/// always wins; without one, a query gets the read default and a write or
/// route call gets the write default.
pub fn effective_timeout_ms(ctx: &RpcContext, session: &Session, op: OpKind) -> (r: u64)
    ensures
        r == spec_effective_timeout_ms(ctx.timeout_ms, *session, op),
        ctx.timeout_ms matches Some(t) ==> r == t,
        ctx.timeout_ms is None && op == OpKind::Query ==> r == session.default_read_timeout_ms,
        ctx.timeout_ms is None && op != OpKind::Query ==> r == session.default_write_timeout_ms,
{
    match ctx.timeout_ms {
        Some(t) => t,
        None => match op {
            OpKind::Query => session.default_read_timeout_ms,
            OpKind::Write => session.default_write_timeout_ms,
            OpKind::Route => session.default_write_timeout_ms,
        },
    }
}

/// An outbound call as handed to the transport: the metadata to attach and
/// the deadline to enforce. The message itself travels beside it, untouched
/// by this layer.
#[derive(Debug, Clone, PartialEq, Eq)]
pub struct PreparedCall {
    pub metadata: Vec<(String, String)>,
    pub timeout_ms: u64,
}

/// Prepares one call: validates the credentials, fails fast with the
/// matching authentication error when one cannot be encoded as transport
/// metadata, and otherwise yields the call's deadline together with exactly
/// one metadata pair — the tenant identifier under
/// [`RPC_HEADER_TENANT_KEY`]. No network I/O happens here.
pub fn prepare_call(ctx: &RpcContext, session: &Session, op: OpKind) -> (r: Result<
    PreparedCall,
    Error,
>)
    ensures
        r is Ok <==> metadata_value_ok(ctx.tenant@) && metadata_value_ok(ctx.token@),
        r matches Ok(p) ==> p.timeout_ms == spec_effective_timeout_ms(ctx.timeout_ms, *session, op)
            && p.metadata@.len() == 1 && p.metadata@[0].0@ == RPC_HEADER_TENANT_KEY@
            && p.metadata@[0].1@ == ctx.tenant@,
        !metadata_value_ok(ctx.tenant@) ==> (r matches Err(e) && e matches Error::AuthFail(s)
            && s.code == AuthCode::InvalidTenantMeta && s.msg@ == invalid_tenant_msg(ctx.tenant@)),
        metadata_value_ok(ctx.tenant@) && !metadata_value_ok(ctx.token@) ==> (r matches Err(e)
            && e matches Error::AuthFail(s) && s.code == AuthCode::InvalidTokenMeta && s.msg@
            == invalid_token_msg(ctx.token@)),
{
    let interceptor = AuthInterceptor::new(ctx)?;
    let timeout_ms = effective_timeout_ms(ctx, session, op);
    let mut metadata: Vec<(String, String)> = Vec::new();
    interceptor.call(&mut metadata);
    Ok(PreparedCall { metadata, timeout_ms })
}

} // verus!
