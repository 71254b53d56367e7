//! Per-call authentication: credential validation and metadata injection.
//!
//! A credential string travels as ASCII transport metadata, so it is accepted
//! exactly when the transport's metadata encoding accepts it. Validation
//! happens before any network I/O; on each outbound call the tenant string is
//! injected verbatim under a fixed metadata key.

use vstd::prelude::*;
use vstd::string::*;

use crate::context::RpcContext;
use crate::errors::{AuthCode, AuthFailStatus, Error};

verus! {

/// Metadata key under which the tenant identifier travels with every call.
pub const RPC_HEADER_TENANT_KEY: &'static str = "x-ceresdb-access-tenant";

/// Whether one character may appear in an ASCII transport metadata value.
///
/// The transport validates the UTF-8 bytes of the string and accepts a byte
/// `b` when `b >= 32 && b != 127 || b == b'\t'`. Characters below 128 are
/// encoded as themselves, so the byte rule applies to them directly;
/// characters at 128 and above are encoded as bytes in `128..=255`, all of
/// which the byte rule accepts.
pub open spec fn metadata_char_ok(c: char) -> bool {
    c == '\t' || (c as u32 >= 32 && c as u32 != 127)
}

/// Whether a string can be carried as an ASCII transport metadata value.
pub open spec fn metadata_value_ok(s: Seq<char>) -> bool {
    forall|i: int| 0 <= i < s.len() ==> metadata_char_ok(#[trigger] s[i])
}

/// Message reported when a tenant string is not valid transport metadata.
pub open spec fn invalid_tenant_msg(tenant: Seq<char>) -> Seq<char> {
    "invalid tenant: "@ + tenant + ", can not be converted to grpc metadata"@
}

/// Message reported when a token string is not valid transport metadata.
pub open spec fn invalid_token_msg(token: Seq<char>) -> Seq<char> {
    "invalid token: "@ + token + ", can not be converted to grpc metadata"@
}

/// Relies on `str::parse::<tonic::metadata::MetadataValue<Ascii>>`, which
/// succeeds exactly when every byte of the string is `>= 32` and `!= 127`, or
/// is a horizontal tab ([`metadata_value_ok`] states the same rule over the
/// string's characters).
#[verifier::external_body]
fn parse_metadata_value(s: &str) -> (r: bool)
    ensures
        r == metadata_value_ok(s@),
{
    s.parse::<tonic::metadata::MetadataValue<tonic::metadata::Ascii>>().is_ok()
}

/// Per-call interceptor: carries credentials that are known to be encodable
/// as transport metadata. Attached to a single call, never shared.
#[derive(Debug, Clone, PartialEq, Eq)]
pub struct AuthInterceptor {
    pub tenant: String,
    pub token: String,
}

impl AuthInterceptor {
    /// Both credentials are valid transport metadata values.
    pub open spec fn wf(self) -> bool {
        metadata_value_ok(self.tenant@) && metadata_value_ok(self.token@)
    }

    /// Validates the credentials of one call.
    ///
    /// Fails before any network I/O when a credential cannot be encoded as
    /// transport metadata; the tenant is checked first.
    pub fn new(ctx: &RpcContext) -> (r: Result<AuthInterceptor, Error>)
        ensures
            r is Ok <==> metadata_value_ok(ctx.tenant@) && metadata_value_ok(ctx.token@),
            r matches Ok(a) ==> a.tenant@ == ctx.tenant@ && a.token@ == ctx.token@ && a.wf(),
            !metadata_value_ok(ctx.tenant@) ==> (r matches Err(e) && e matches Error::AuthFail(s)
                && s.code == AuthCode::InvalidTenantMeta && s.msg@ == invalid_tenant_msg(
                ctx.tenant@,
            )),
            metadata_value_ok(ctx.tenant@) && !metadata_value_ok(ctx.token@) ==> (r matches Err(e)
                && e matches Error::AuthFail(s) && s.code == AuthCode::InvalidTokenMeta
                && s.msg@ == invalid_token_msg(ctx.token@)),
    {
        if !parse_metadata_value(ctx.tenant.as_str()) {
            let msg = String::from_str("invalid tenant: ").concat(ctx.tenant.as_str()).concat(
                ", can not be converted to grpc metadata",
            );
            return Err(Error::AuthFail(AuthFailStatus { code: AuthCode::InvalidTenantMeta, msg }));
        }
        if !parse_metadata_value(ctx.token.as_str()) {
            let msg = String::from_str("invalid token: ").concat(ctx.token.as_str()).concat(
                ", can not be converted to grpc metadata",
            );
            return Err(Error::AuthFail(AuthFailStatus { code: AuthCode::InvalidTokenMeta, msg }));
        }
        Ok(AuthInterceptor { tenant: ctx.tenant.clone(), token: ctx.token.clone() })
    }

    /// Injects the tenant identifier into an outbound request's metadata, as
    /// the interceptor does on each call it is attached to: the pair
    /// ([`RPC_HEADER_TENANT_KEY`], tenant) is appended and every pair already
    /// present is kept. The token is validated at construction but not
    /// transmitted.
    pub fn call(&self, metadata: &mut Vec<(String, String)>)
        ensures
            final(metadata)@.len() == old(metadata)@.len() + 1,
            forall|i: int|
                0 <= i < old(metadata)@.len() ==> final(metadata)@[i] == old(metadata)@[i],
            final(metadata)@.last().0@ == RPC_HEADER_TENANT_KEY@,
            final(metadata)@.last().1@ == self.tenant@,
    {
        let key = String::from_str(RPC_HEADER_TENANT_KEY);
        metadata.push((key, self.tenant.clone()));
    }
}

} // verus!
