//! Translation of wire-level response headers into typed outcomes.
//!
//! Every response message embeds a header with a numeric status code and an
//! optional error message. A call succeeds only when the header is present
//! and carries the success code; otherwise the payload is discarded and the
//! header's code and message are surfaced verbatim.

use vstd::prelude::*;
use vstd::string::*;

use crate::errors::{Error, ServerError};
use crate::is_ok;

verus! {

/// Code carried by the synthesised server error when a response arrives
/// without any header.
pub const CODE_MISSING_HEADER: u32 = 0;

/// Message carried by the synthesised server error when a response arrives
/// without any header.
pub const MSG_MISSING_HEADER: &'static str = "response header is missing";

/// Status envelope embedded in every response message.
#[derive(Debug, Clone, PartialEq, Eq)]
pub struct ResponseHeader {
    pub code: u32,
    pub error: String,
}

/// A response as the transport hands it back: the status envelope, if the
/// server supplied one, and the operation's payload.
pub struct WireResponse<T> {
    pub header: Option<ResponseHeader>,
    pub payload: T,
}

/// Accepts a header exactly when it carries the success code; any other code
/// becomes a server error surfacing that code and message verbatim.
pub fn check_status(header: ResponseHeader) -> (r: Result<(), Error>)
    ensures
        r is Ok <==> is_ok(header.code),
        !is_ok(header.code) ==> (r matches Err(e) && e matches Error::Server(s) && s.code
            == header.code && s.msg@ == header.error@),
{
    if !is_ok(header.code) {
        return Err(Error::Server(ServerError { code: header.code, msg: header.error }));
    }
    Ok(())
}

/// Validates a full response: the payload is returned unchanged exactly when
/// the header is present and successful; a failing header is surfaced as a
/// server error and the payload is discarded; a missing header is a failure
/// with [`CODE_MISSING_HEADER`] and [`MSG_MISSING_HEADER`].
pub fn accept_response<T>(resp: WireResponse<T>) -> (r: Result<T, Error>)
    ensures
        r is Ok <==> (resp.header matches Some(h) && is_ok(h.code)),
        resp.header matches Some(h) && is_ok(h.code) ==> (r matches Ok(p) && p == resp.payload),
        resp.header matches Some(h) && !is_ok(h.code) ==> (r matches Err(e)
            && e matches Error::Server(s) && s.code == resp.header->Some_0.code && s.msg@
            == resp.header->Some_0.error@),
        resp.header is None ==> (r matches Err(e) && e matches Error::Server(s) && s.code
            == CODE_MISSING_HEADER && s.msg@ == MSG_MISSING_HEADER@),
{
    match resp.header {
        Some(header) => {
            check_status(header)?;
            Ok(resp.payload)
        },
        None => Err(
            Error::Server(
                ServerError {
                    code: CODE_MISSING_HEADER,
                    msg: String::from_str(MSG_MISSING_HEADER),
                },
            ),
        ),
    }
}

/// Concludes one call from the transport's outcome: a transport-level failure
/// is wrapped as an RPC error with its message kept verbatim, and a delivered
/// response goes through [`accept_response`]. Nothing is retried.
pub fn complete_call<T>(outcome: Result<WireResponse<T>, String>) -> (r: Result<T, Error>)
    ensures
        r is Ok <==> (outcome matches Ok(resp) && resp.header matches Some(h) && is_ok(h.code)),
        outcome matches Ok(resp) && resp.header matches Some(h) && is_ok(h.code) ==> (
        r matches Ok(p) && p == outcome->Ok_0.payload),
        outcome matches Ok(resp) && resp.header matches Some(h) && !is_ok(h.code) ==> (
        r matches Err(e) && e matches Error::Server(s) && s.code
            == outcome->Ok_0.header->Some_0.code && s.msg@
            == outcome->Ok_0.header->Some_0.error@),
        outcome matches Ok(resp) && resp.header is None ==> (r matches Err(e)
            && e matches Error::Server(s) && s.code == CODE_MISSING_HEADER && s.msg@
            == MSG_MISSING_HEADER@),
        outcome matches Err(m) ==> (r matches Err(e) && e matches Error::Rpc { msg } && msg@
            == outcome->Err_0@),
{
    match outcome {
        Ok(resp) => accept_response(resp),
        Err(m) => Err(Error::Rpc { msg: m }),
    }
}

} // verus!
