//! Session factory: builds a configured transport session from an endpoint
//! string and static configuration.
//!
//! The factory's decisions are plain values: it prefixes the endpoint with
//! the plaintext scheme, checks that the result is a well-formed URI, and
//! lays out which connection-level settings apply. The embedding application
//! performs the handshake from that plan and reports its outcome back; only
//! a successful handshake yields a session.

use vstd::prelude::*;
use vstd::string::*;

use crate::errors::Error;
use crate::options::{RpcConfig, RpcOptions};
use crate::session::Session;

verus! {

/// Whether the transport accepts a string as the URI of an endpoint.
pub uninterp spec fn endpoint_uri_ok(s: Seq<char>) -> bool;

/// Relies on `tonic::transport::Endpoint::from_shared`, which parses its
/// argument as a URI and accepts or rejects it depending on the string
/// alone; on rejection the parse error is returned as text.
#[verifier::external_body]
fn check_endpoint_uri(s: &str) -> (r: Result<(), String>)
    ensures
        r is Ok <==> endpoint_uri_ok(s@),
{
    match tonic::transport::Endpoint::from_shared(s.to_string()) {
        Ok(_) => Ok(()),
        Err(e) => Err(format!("{}", e)),
    }
}

/// Keep-alive probing settings applied to a new connection, in milliseconds.
#[derive(Debug, Clone, Copy, PartialEq, Eq, Structural)]
pub struct KeepAlivePlan {
    pub timeout_ms: u64,
    pub interval_ms: u64,
}

/// Connection-level settings a new session is built with: the
/// scheme-qualified address to dial, the connect timeout, and — only when
/// keep-alive while idle is enabled — the keep-alive settings.
#[derive(Debug, Clone, PartialEq, Eq)]
pub struct SessionPlan {
    pub endpoint_with_scheme: String,
    pub connect_timeout_ms: u64,
    pub keep_alive: Option<KeepAlivePlan>,
}

/// Builds transport sessions for one client from its static configuration.
pub struct RpcClientImplFactory {
    pub rpc_opts: RpcOptions,
    pub grpc_config: RpcConfig,
}

impl RpcClientImplFactory {
    pub fn new(grpc_config: RpcConfig, rpc_opts: RpcOptions) -> (r: Self)
        ensures
            r.grpc_config == grpc_config,
            r.rpc_opts == rpc_opts,
    {
        Self { rpc_opts, grpc_config }
    }

    /// Prefixes an endpoint in `host:port` form with the plaintext scheme.
    pub fn make_endpoint_with_scheme(endpoint: &str) -> (r: String)
        ensures
            r@ == "http://"@ + endpoint@,
    {
        String::from_str("http://").concat(endpoint)
    }

    /// Plans one session build. The scheme-qualified form of the exact
    /// endpoint is checked as a URI: a malformed endpoint yields a connect
    /// error carrying that endpoint, and no handshake is attempted. A
    /// well-formed endpoint yields the settings to dial with: the connect
    /// timeout always, and the keep-alive settings exactly when keep-alive
    /// while idle is enabled.
    pub fn plan_build(&self, endpoint: &str) -> (r: Result<SessionPlan, Error>)
        ensures
            r is Ok <==> endpoint_uri_ok("http://"@ + endpoint@),
            r matches Ok(p) ==> p.endpoint_with_scheme@ == "http://"@ + endpoint@
                && p.connect_timeout_ms == self.rpc_opts.connect_timeout_ms,
            r is Ok && self.grpc_config.keep_alive_while_idle ==> (
            r->Ok_0.keep_alive matches Some(k) && k.timeout_ms
                == self.grpc_config.keep_alive_timeout_ms && k.interval_ms
                == self.grpc_config.keep_alive_interval_ms),
            r is Ok && !self.grpc_config.keep_alive_while_idle ==> r->Ok_0.keep_alive is None,
            r matches Err(e) ==> e matches Error::Connect { addr, msg } && addr@ == endpoint@,
    {
        let endpoint_with_scheme = Self::make_endpoint_with_scheme(endpoint);
        match check_endpoint_uri(endpoint_with_scheme.as_str()) {
            Ok(_) => {
                let keep_alive = if self.grpc_config.keep_alive_while_idle {
                    Some(
                        KeepAlivePlan {
                            timeout_ms: self.grpc_config.keep_alive_timeout_ms,
                            interval_ms: self.grpc_config.keep_alive_interval_ms,
                        },
                    )
                } else {
                    None
                };
                Ok(
                    SessionPlan {
                        endpoint_with_scheme,
                        connect_timeout_ms: self.rpc_opts.connect_timeout_ms,
                        keep_alive,
                    },
                )
            },
            Err(msg) => Err(Error::Connect { addr: String::from_str(endpoint), msg }),
        }
    }

    /// Concludes one session build from the handshake's outcome: a
    /// successful handshake (identified by its connection handle) becomes
    /// the session that every later call shares, carrying this factory's
    /// read and write deadline defaults; a failed handshake becomes a
    /// connect error carrying the endpoint and the cause, and nothing is
    /// retried here.
    pub fn finish_build(&self, endpoint: &str, handshake: Result<u64, String>) -> (r: Result<
        Session,
        Error,
    >)
        ensures
            r is Ok <==> handshake is Ok,
            handshake matches Ok(id) ==> (r matches Ok(s) && s.channel_id == id
                && s.default_read_timeout_ms == self.rpc_opts.read_timeout_ms
                && s.default_write_timeout_ms == self.rpc_opts.write_timeout_ms),
            handshake matches Err(m) ==> (r matches Err(e) && e matches Error::Connect {
                addr,
                msg,
            } && addr@ == endpoint@ && msg@ == m@),
    {
        match handshake {
            Ok(channel_id) => Ok(
                Session {
                    channel_id,
                    default_read_timeout_ms: self.rpc_opts.read_timeout_ms,
                    default_write_timeout_ms: self.rpc_opts.write_timeout_ms,
                },
            ),
            Err(m) => Err(Error::Connect { addr: String::from_str(endpoint), msg: m }),
        }
    }
}

} // verus!
