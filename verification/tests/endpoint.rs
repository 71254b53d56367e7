//! Session factory: endpoint normalization, keep-alive toggle, handshake
//! outcomes.

use ceresdb_client::errors::Error;
use ceresdb_client::factory::RpcClientImplFactory;
use ceresdb_client::options::{RpcConfig, RpcOptions};

fn options() -> RpcOptions {
    RpcOptions { connect_timeout_ms: 3000, read_timeout_ms: 1000, write_timeout_ms: 2000 }
}

fn config(keep_alive_while_idle: bool) -> RpcConfig {
    RpcConfig { keep_alive_while_idle, keep_alive_timeout_ms: 6000, keep_alive_interval_ms: 600 }
}

#[test]
fn endpoint_is_prefixed_with_plaintext_scheme() {
    let with_scheme = RpcClientImplFactory::make_endpoint_with_scheme("127.0.0.1:8831");
    assert_eq!(with_scheme, "http://127.0.0.1:8831");
}

#[test]
fn plan_dials_the_exact_scheme_qualified_address() {
    let factory = RpcClientImplFactory::new(config(false), options());
    let plan = factory.plan_build("127.0.0.1:8831").unwrap();
    assert_eq!(plan.endpoint_with_scheme, "http://127.0.0.1:8831");
    assert_eq!(plan.connect_timeout_ms, 3000);
}

#[test]
fn malformed_endpoint_yields_connect_error_without_handshake() {
    let factory = RpcClientImplFactory::new(config(false), options());
    match factory.plan_build("127.0.0.1:8831 \n bad") {
        Err(Error::Connect { addr, msg: _ }) => {
            assert_eq!(addr, "127.0.0.1:8831 \n bad");
        }
        other => panic!("expected connect error, got {:?}", other),
    }
}

#[test]
fn keep_alive_disabled_applies_only_connect_timeout() {
    let factory = RpcClientImplFactory::new(config(false), options());
    let plan = factory.plan_build("127.0.0.1:8831").unwrap();
    assert_eq!(plan.connect_timeout_ms, 3000);
    assert!(plan.keep_alive.is_none());
}

#[test]
fn keep_alive_enabled_applies_timeout_and_interval() {
    let factory = RpcClientImplFactory::new(config(true), options());
    let plan = factory.plan_build("127.0.0.1:8831").unwrap();
    assert_eq!(plan.connect_timeout_ms, 3000);
    let keep_alive = plan.keep_alive.expect("keep-alive settings must be planned");
    assert_eq!(keep_alive.timeout_ms, 6000);
    assert_eq!(keep_alive.interval_ms, 600);
}

#[test]
fn successful_handshake_becomes_the_shared_session() {
    let factory = RpcClientImplFactory::new(config(false), options());
    let session = factory.finish_build("127.0.0.1:8831", Ok(7)).unwrap();
    assert_eq!(session.channel_id, 7);
    assert_eq!(session.default_read_timeout_ms, 1000);
    assert_eq!(session.default_write_timeout_ms, 2000);
}

#[test]
fn failed_handshake_carries_endpoint_and_cause() {
    let factory = RpcClientImplFactory::new(config(false), options());
    match factory.finish_build("127.0.0.1:8831", Err(String::from("connection refused"))) {
        Err(Error::Connect { addr, msg }) => {
            assert_eq!(addr, "127.0.0.1:8831");
            assert_eq!(msg, "connection refused");
        }
        other => panic!("expected connect error, got {:?}", other),
    }
}
