//! Lazy, idempotent-once session initialization.
//!
//! A client binds to one endpoint and shares one transport session across all
//! of its calls. The session is built lazily on first use: any number of
//! callers may race for first use, but only one build runs at a time, only a
//! successful build is cached, and a failed build resets the state so that a
//! later call retries.
//!
//! The state machine here is the decision logic of that protocol. The
//! embedding application holds an [`InitState`] behind a lock, polls it to
//! learn what to do, runs the (asynchronous) build when told to, and reports
//! the build's outcome back through [`InitState::finish`].

use vstd::prelude::*;

use crate::errors::Error;

verus! {

/// The shared transport session: a handle to a live connection plus the two
/// default deadlines used by calls that carry no explicit timeout. Never
/// mutated after creation.
///
/// The connection itself lives in the embedding application; the handle
/// identifies it.
#[derive(Debug, Clone, Copy, PartialEq, Eq, Structural)]
pub struct Session {
    pub channel_id: u64,
    pub default_read_timeout_ms: u64,
    pub default_write_timeout_ms: u64,
}

/// Observable state of a client's one-time session initialization.
#[derive(Debug, Clone, Copy, PartialEq, Eq, Structural)]
pub enum InitState {
    /// No session exists and no build is running.
    Uninitialized,
    /// Exactly one build attempt is in flight.
    Initializing,
    /// A build succeeded; the session is cached for every later caller.
    Ready(Session),
}

/// What a caller that polled the state must do next.
#[derive(Debug, Clone, Copy, PartialEq, Eq, Structural)]
pub enum InitAction {
    /// This caller won the race: run one build attempt, then report its
    /// outcome through [`InitState::finish`].
    StartBuild,
    /// Another caller's build attempt is in flight: wait and poll again.
    Wait,
    /// The session is available; use this handle.
    Use(Session),
}

/// One poll of the initialization state: the state afterwards and the action
/// the polling caller takes.
pub open spec fn spec_poll(st: InitState) -> (InitState, InitAction) {
    match st {
        InitState::Uninitialized => (InitState::Initializing, InitAction::StartBuild),
        InitState::Initializing => (InitState::Initializing, InitAction::Wait),
        InitState::Ready(s) => (InitState::Ready(s), InitAction::Use(s)),
    }
}

/// The state after the in-flight build attempt reports its outcome: only a
/// success is cached; a failure resets the state so a later call retries.
pub open spec fn spec_finish(st: InitState, outcome: Option<Session>) -> InitState {
    match outcome {
        Some(s) => InitState::Ready(s),
        None => InitState::Uninitialized,
    }
}

impl InitState {
    /// Polls the state on behalf of one caller and tells it what to do.
    pub fn poll(&mut self) -> (a: InitAction)
        ensures
            (*final(self), a) == spec_poll(*old(self)),
    {
        match *self {
            InitState::Uninitialized => {
                *self = InitState::Initializing;
                InitAction::StartBuild
            },
            InitState::Initializing => InitAction::Wait,
            InitState::Ready(s) => InitAction::Use(s),
        }
    }

    /// Reports the outcome of the one in-flight build attempt.
    pub fn finish(&mut self, outcome: &Result<Session, Error>)
        requires
            *old(self) is Initializing,
        ensures
            *final(self) == spec_finish(
                *old(self),
                match *outcome {
                    Ok(s) => Some(s),
                    Err(_) => None,
                },
            ),
            outcome matches Ok(s) ==> *final(self) == InitState::Ready(*s),
            outcome is Err ==> *final(self) == InitState::Uninitialized,
    {
        match outcome {
            Ok(s) => {
                *self = InitState::Ready(*s);
            },
            Err(_) => {
                *self = InitState::Uninitialized;
            },
        }
    }
}

/// State after `n` successive polls starting from `st`, with no build outcome
/// reported in between.
pub open spec fn poll_state(st: InitState, n: nat) -> InitState
    decreases n,
{
    if n == 0 {
        st
    } else {
        spec_poll(poll_state(st, (n - 1) as nat)).0
    }
}

/// Action handed to the caller that makes the `n`-th poll (counting from 0)
/// starting from `st`, with no build outcome reported in between.
pub open spec fn poll_action(st: InitState, n: nat) -> InitAction {
    spec_poll(poll_state(st, n)).1
}

/// Law: among any number of callers that race for the first use of a fresh
/// client, the build routine is started exactly once — the caller that polls
/// first is told to build, and every caller that polls while that attempt is
/// in flight is told to wait.
pub proof fn lemma_single_init(n: nat)
    ensures
        poll_action(InitState::Uninitialized, n) == (if n == 0 {
            InitAction::StartBuild
        } else {
            InitAction::Wait
        }),
        n >= 1 ==> poll_state(InitState::Uninitialized, n) == InitState::Initializing,
    decreases n,
{
    if n >= 1 {
        lemma_single_init((n - 1) as nat);
    }
}

/// Law: once a build has succeeded, the cached session is durable — every
/// concurrent and future caller observes the same handle, and no further
/// build is ever started.
pub proof fn lemma_ready_is_durable(s: Session, n: nat)
    ensures
        poll_state(InitState::Ready(s), n) == InitState::Ready(s),
        poll_action(InitState::Ready(s), n) == InitAction::Use(s),
    decreases n,
{
    if n >= 1 {
        lemma_ready_is_durable(s, (n - 1) as nat);
    }
}

/// Law: a failed build attempt is not cached — after the in-flight attempt
/// reports a failure, the next caller to poll is told to start a fresh build
/// attempt.
pub proof fn lemma_retry_after_failure()
    ensures
        spec_finish(InitState::Initializing, None) == InitState::Uninitialized,
        spec_poll(InitState::Uninitialized).1 == InitAction::StartBuild,
{
}

/// One event in the life of an initialization state: a caller polls, or the
/// in-flight build attempt reports its outcome.
pub enum InitEvent {
    Poll,
    Finish(Option<Session>),
}

/// Whether an event can happen in a state: anyone may poll at any time, but
/// only an in-flight attempt can report an outcome.
pub open spec fn event_ok(st: InitState, ev: InitEvent) -> bool {
    match ev {
        InitEvent::Poll => true,
        InitEvent::Finish(_) => st is Initializing,
    }
}

/// The state after one event.
pub open spec fn step_state(st: InitState, ev: InitEvent) -> InitState {
    match ev {
        InitEvent::Poll => spec_poll(st).0,
        InitEvent::Finish(outcome) => spec_finish(st, outcome),
    }
}

/// Whether a sequence of events is a run: each event can happen in the state
/// the previous events led to.
pub open spec fn run_ok(st: InitState, evs: Seq<InitEvent>) -> bool
    decreases evs.len(),
{
    evs.len() == 0 || (event_ok(st, evs[0]) && run_ok(step_state(st, evs[0]), evs.drop_first()))
}

/// The state a run of events leads to.
pub open spec fn run_state(st: InitState, evs: Seq<InitEvent>) -> InitState
    decreases evs.len(),
{
    if evs.len() == 0 {
        st
    } else {
        run_state(step_state(st, evs[0]), evs.drop_first())
    }
}

/// How many build attempts a run starts: one for every poll that finds the
/// state uninitialized.
pub open spec fn count_builds(st: InitState, evs: Seq<InitEvent>) -> nat
    decreases evs.len(),
{
    if evs.len() == 0 {
        0
    } else {
        (if evs[0] is Poll && st is Uninitialized {
            1nat
        } else {
            0nat
        }) + count_builds(step_state(st, evs[0]), evs.drop_first())
    }
}

/// How many build attempts of a run report a failure.
pub open spec fn count_failures(evs: Seq<InitEvent>) -> nat
    decreases evs.len(),
{
    if evs.len() == 0 {
        0
    } else {
        (if evs[0] == InitEvent::Finish(None::<Session>) {
            1nat
        } else {
            0nat
        }) + count_failures(evs.drop_first())
    }
}

/// How many build attempts a state accounts for: one when an attempt is in
/// flight or has succeeded.
pub open spec fn pending_weight(st: InitState) -> nat {
    if st is Uninitialized {
        0
    } else {
        1
    }
}

/// Law: builds are accounted for exactly — over any run, the number of build
/// attempts started equals the number of failures plus the change in what
/// the state accounts for. In particular a run of a fresh client in which no
/// attempt fails starts at most one build, however many callers poll and in
/// whatever order the events arrive.
pub proof fn lemma_build_accounting(st: InitState, evs: Seq<InitEvent>)
    requires
        run_ok(st, evs),
    ensures
        count_builds(st, evs) + pending_weight(st) == count_failures(evs) + pending_weight(
            run_state(st, evs),
        ),
    decreases evs.len(),
{
    if evs.len() > 0 {
        lemma_build_accounting(step_state(st, evs[0]), evs.drop_first());
    }
}

/// Law: for any number of concurrent callers racing a fresh client, the
/// build routine is started at most once more than it fails — so as long as
/// no attempt fails, it is started at most once.
pub proof fn lemma_single_build_unless_failure(evs: Seq<InitEvent>)
    requires
        run_ok(InitState::Uninitialized, evs),
    ensures
        count_builds(InitState::Uninitialized, evs) <= count_failures(evs) + 1,
{
    lemma_build_accounting(InitState::Uninitialized, evs);
}

/// Law: a cached session ends the story — once the state is ready, any run
/// of further events keeps the same handle and never starts another build.
pub proof fn lemma_no_build_after_ready(s: Session, evs: Seq<InitEvent>)
    requires
        run_ok(InitState::Ready(s), evs),
    ensures
        run_state(InitState::Ready(s), evs) == InitState::Ready(s),
        count_builds(InitState::Ready(s), evs) == 0,
    decreases evs.len(),
{
    if evs.len() > 0 {
        lemma_no_build_after_ready(s, evs.drop_first());
    }
}

} // verus!
