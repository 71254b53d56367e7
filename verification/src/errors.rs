//! Typed error values returned by the client.
//!
//! Every failure is surfaced to the immediate caller as one of these values;
//! nothing is retried or swallowed at this layer.

use vstd::prelude::*;

verus! {

/// Which credential could not be encoded as transport metadata.
#[derive(Debug, Clone, Copy, PartialEq, Eq, Structural)]
pub enum AuthCode {
    /// The tenant string cannot be carried as transport metadata.
    InvalidTenantMeta,
    /// The token string cannot be carried as transport metadata.
    InvalidTokenMeta,
}

/// An authentication failure raised before any network I/O.
#[derive(Debug, Clone, PartialEq, Eq)]
pub struct AuthFailStatus {
    pub code: AuthCode,
    pub msg: String,
}

/// A non-success status reported by the remote endpoint in a response header.
#[derive(Debug, Clone, PartialEq, Eq)]
pub struct ServerError {
    pub code: u32,
    pub msg: String,
}

/// Every failure this layer can return.
#[derive(Debug, Clone, PartialEq, Eq)]
pub enum Error {
    /// A credential could not be encoded as transport metadata.
    AuthFail(AuthFailStatus),
    /// Session establishment failed: malformed endpoint or failed handshake.
    Connect { addr: String, msg: String },
    /// Transport-level failure during an in-flight call.
    Rpc { msg: String },
    /// The remote endpoint executed the call but reported a failure.
    Server(ServerError),
}

} // verus!
