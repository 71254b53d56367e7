//! Client-side connection and request layer for a remote tabular database
//! accessed over RPC.
//!
//! The crate models the request-dispatch protocol on plain values: it decides
//! when a session must be built, which deadline a call gets, which
//! authentication metadata is attached, and how a wire-level response header
//! is translated into a typed outcome. The asynchronous transport itself is
//! driven by the embedding application, which feeds the results of its calls
//! back into the verified state machine.

use vstd::prelude::*;

pub mod auth;
pub mod context;
pub mod dispatch;
pub mod errors;
pub mod factory;
pub mod options;
pub mod response;
pub mod session;

verus! {

/// Status code with which a remote endpoint reports success in a response
/// header.
pub const CODE_SUCCESS: u32 = 200;

/// Tells a successful response header code apart from a server-reported
/// failure.
pub open spec fn spec_is_ok(code: u32) -> bool {
    code == CODE_SUCCESS
}

/// Executable form of [`spec_is_ok`].
#[verifier::when_used_as_spec(spec_is_ok)]
pub fn is_ok(code: u32) -> (r: bool)
    ensures
        r == spec_is_ok(code),
{
    code == CODE_SUCCESS
}

} // verus!
