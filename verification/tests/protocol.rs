//! Per-call protocol: deadlines, authentication metadata, response headers.

use ceresdb_client::auth::{AuthInterceptor, RPC_HEADER_TENANT_KEY};
use ceresdb_client::context::RpcContext;
use ceresdb_client::dispatch::{effective_timeout_ms, prepare_call, OpKind};
use ceresdb_client::errors::{AuthCode, Error};
use ceresdb_client::response::{
    accept_response, check_status, complete_call, ResponseHeader, WireResponse, CODE_MISSING_HEADER,
    MSG_MISSING_HEADER,
};
use ceresdb_client::session::Session;
use ceresdb_client::CODE_SUCCESS;

fn sample_session() -> Session {
    Session { channel_id: 1, default_read_timeout_ms: 1000, default_write_timeout_ms: 2000 }
}

fn ctx(tenant: &str, token: &str) -> RpcContext {
    RpcContext::new(String::from(tenant), String::from(token))
}

#[test]
fn explicit_timeout_overrides_every_default() {
    let session = sample_session();
    let c = ctx("t1", "tok").with_timeout_ms(555);
    assert_eq!(effective_timeout_ms(&c, &session, OpKind::Query), 555);
    assert_eq!(effective_timeout_ms(&c, &session, OpKind::Write), 555);
    assert_eq!(effective_timeout_ms(&c, &session, OpKind::Route), 555);
}

#[test]
fn default_timeouts_by_operation_kind() {
    let session = sample_session();
    let c = ctx("t1", "tok");
    assert_eq!(effective_timeout_ms(&c, &session, OpKind::Query), 1000);
    assert_eq!(effective_timeout_ms(&c, &session, OpKind::Write), 2000);
    // Route piggybacks on the write timeout.
    assert_eq!(effective_timeout_ms(&c, &session, OpKind::Route), 2000);
}

#[test]
fn tenant_is_injected_under_the_fixed_key() {
    let c = ctx("t1", "tok");
    let interceptor = AuthInterceptor::new(&c).unwrap();
    let mut metadata: Vec<(String, String)> = Vec::new();
    interceptor.call(&mut metadata);
    assert_eq!(metadata.len(), 1);
    assert_eq!(metadata[0].0.as_str(), "x-ceresdb-access-tenant");
    assert_eq!(metadata[0].0.as_str(), RPC_HEADER_TENANT_KEY);
    assert_eq!(metadata[0].1.as_str(), "t1");
}

#[test]
fn prepared_call_carries_auth_and_deadline() {
    let session = sample_session();
    let c = ctx("t1", "tok").with_timeout_ms(42);
    let prepared = prepare_call(&c, &session, OpKind::Write).unwrap();
    assert_eq!(prepared.timeout_ms, 42);
    assert_eq!(prepared.metadata.len(), 1);
    assert_eq!(prepared.metadata[0].0.as_str(), RPC_HEADER_TENANT_KEY);
    assert_eq!(prepared.metadata[0].1.as_str(), "t1");
}

#[test]
fn tenant_with_raw_newline_fails_before_any_network_call() {
    let c = ctx("t\n1", "tok");
    match AuthInterceptor::new(&c) {
        Err(Error::AuthFail(status)) => {
            assert_eq!(status.code, AuthCode::InvalidTenantMeta);
            assert_eq!(
                status.msg,
                "invalid tenant: t\n1, can not be converted to grpc metadata"
            );
        }
        other => panic!("expected tenant auth failure, got {:?}", other),
    }
}

#[test]
fn token_with_illegal_byte_fails_with_token_code() {
    let c = ctx("t1", "tok\u{7f}en");
    match prepare_call(&c, &sample_session(), OpKind::Query) {
        Err(Error::AuthFail(status)) => {
            assert_eq!(status.code, AuthCode::InvalidTokenMeta);
            assert_eq!(
                status.msg,
                "invalid token: tok\u{7f}en, can not be converted to grpc metadata"
            );
        }
        other => panic!("expected token auth failure, got {:?}", other),
    }
}

#[test]
fn empty_tenant_is_not_rejected() {
    // Emptiness is not validated; only metadata encodability is.
    let c = ctx("", "tok");
    let prepared = prepare_call(&c, &sample_session(), OpKind::Query).unwrap();
    assert_eq!(prepared.metadata[0].1.as_str(), "");
}

#[test]
fn tab_and_spaces_are_legal_metadata() {
    let c = ctx("a\tb c", "tok");
    assert!(AuthInterceptor::new(&c).is_ok());
}

#[test]
fn successful_header_returns_payload_unchanged() {
    let resp = WireResponse {
        header: Some(ResponseHeader { code: CODE_SUCCESS, error: String::new() }),
        payload: vec![1u8, 2, 3],
    };
    assert_eq!(accept_response(resp).unwrap(), vec![1u8, 2, 3]);
}

#[test]
fn failing_header_discards_payload_and_surfaces_code_and_message() {
    let resp = WireResponse {
        header: Some(ResponseHeader { code: 1, error: String::from("tenant not found") }),
        payload: 99u64,
    };
    match accept_response(resp) {
        Err(Error::Server(server)) => {
            assert_eq!(server.code, 1);
            assert_eq!(server.msg, "tenant not found");
        }
        other => panic!("expected server error, got {:?}", other),
    }
}

#[test]
fn missing_header_is_a_failure() {
    let resp: WireResponse<u32> = WireResponse { header: None, payload: 5 };
    match accept_response(resp) {
        Err(Error::Server(server)) => {
            assert_eq!(server.code, CODE_MISSING_HEADER);
            assert_eq!(server.msg, MSG_MISSING_HEADER);
        }
        other => panic!("expected server error, got {:?}", other),
    }
}

#[test]
fn check_status_accepts_only_the_success_code() {
    assert!(check_status(ResponseHeader { code: CODE_SUCCESS, error: String::new() }).is_ok());
    match check_status(ResponseHeader { code: 401, error: String::from("denied") }) {
        Err(Error::Server(server)) => {
            assert_eq!(server.code, 401);
            assert_eq!(server.msg, "denied");
        }
        other => panic!("expected server error, got {:?}", other),
    }
}

#[test]
fn transport_failure_becomes_rpc_error() {
    let outcome: Result<WireResponse<u32>, String> = Err(String::from("deadline exceeded"));
    match complete_call(outcome) {
        Err(Error::Rpc { msg }) => assert_eq!(msg, "deadline exceeded"),
        other => panic!("expected rpc error, got {:?}", other),
    }
}

#[test]
fn delivered_response_goes_through_header_validation() {
    let outcome: Result<WireResponse<&str>, String> = Ok(WireResponse {
        header: Some(ResponseHeader { code: CODE_SUCCESS, error: String::new() }),
        payload: "rows",
    });
    assert_eq!(complete_call(outcome).unwrap(), "rows");
}
