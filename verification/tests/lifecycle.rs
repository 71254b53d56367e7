//! Session lifecycle: lazy one-time initialization, shared handle, retry.

use ceresdb_client::session::{InitAction, InitState, Session};

fn sample_session() -> Session {
    Session { channel_id: 7, default_read_timeout_ms: 1000, default_write_timeout_ms: 2000 }
}

#[test]
fn first_poll_starts_exactly_one_build() {
    let mut state = InitState::Uninitialized;
    assert_eq!(state.poll(), InitAction::StartBuild);
    assert_eq!(state, InitState::Initializing);
    // Every racer that polls while the attempt is in flight waits.
    assert_eq!(state.poll(), InitAction::Wait);
    assert_eq!(state.poll(), InitAction::Wait);
    assert_eq!(state, InitState::Initializing);
}

#[test]
fn successful_build_is_cached_for_all_callers() {
    let mut state = InitState::Uninitialized;
    assert_eq!(state.poll(), InitAction::StartBuild);
    let session = sample_session();
    state.finish(&Ok(session));
    assert_eq!(state, InitState::Ready(session));
    // All concurrent and future callers observe the same handle.
    assert_eq!(state.poll(), InitAction::Use(session));
    assert_eq!(state.poll(), InitAction::Use(session));
    assert_eq!(state, InitState::Ready(session));
}

#[test]
fn failed_build_is_not_cached_and_next_call_retries() {
    let mut state = InitState::Uninitialized;
    assert_eq!(state.poll(), InitAction::StartBuild);
    state.finish(&Err(ceresdb_client::errors::Error::Connect {
        addr: String::from("127.0.0.1:8831"),
        msg: String::from("connection refused"),
    }));
    assert_eq!(state, InitState::Uninitialized);
    // A subsequent call triggers a fresh attempt, not a cached failure.
    assert_eq!(state.poll(), InitAction::StartBuild);
    let session = sample_session();
    state.finish(&Ok(session));
    assert_eq!(state.poll(), InitAction::Use(session));
}
