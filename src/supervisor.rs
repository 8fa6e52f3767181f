//! The session supervisor: a state machine that owns at most one transport
//! session at a time, counts failed attempts, and decides after each
//! observation whether to start, poll, retry after a wait, or stop.
//!
//! The host performs each `Action` and hands back what it observed as an
//! `Input`, together with the shutdown flag as read at that moment.
use vstd::prelude::*;
use crate::config::SupervisorConfig;
use crate::policy::{attempt_permitted, may_attempt, next_delay};

verus! {

/// Why the supervisor stopped.
#[derive(Clone, Copy, Debug, PartialEq, Eq, Structural)]
pub enum Outcome {
    /// Shutdown was requested.
    ShutdownRequested,
    /// The configured number of failed attempts in a row was reached.
    RetriesExhausted,
    /// The session could not be built from the configuration.
    FatalConfigError,
}

/// Where the supervisor stands.
#[derive(Clone, Copy, Debug, PartialEq, Eq, Structural)]
pub enum Phase {
    /// Not started yet.
    Idle,
    /// An attempt is under way and has not reached steady streaming.
    Starting,
    /// The session reported that it is healthy.
    Streaming,
    /// An attempt failed; the wait before the next one is running.
    Restarting,
    /// Terminal.
    Stopped(Outcome),
}

/// A synchronous failure of the session's `start`.
#[derive(Clone, Copy, Debug, PartialEq, Eq, Structural)]
pub enum StartError {
    /// The session cannot be built from the endpoints: not retried.
    Config,
    /// The session could not be brought up: retried.
    Connect,
}

/// What polling a live session yielded.
#[derive(Clone, Copy, Debug, PartialEq, Eq, Structural)]
pub enum SessionEvent {
    /// The session reached steady streaming.
    Healthy,
    /// The session failed.
    Error,
    /// The upstream ended the stream.
    EndOfStream,
    /// Anything else, including a poll that timed out.
    Other,
}

/// What the host observed after carrying out the last action.
#[derive(Clone, Copy, Debug, PartialEq, Eq, Structural)]
pub enum Input {
    /// The supervisor is run.
    Begin,
    /// `start` returned a live session.
    Started,
    /// `start` failed.
    StartFailed(StartError),
    /// The live session was polled.
    Event(SessionEvent),
    /// The wait before a retry ended, elapsed or interrupted.
    WaitOver,
}

/// The kind of a failed attempt, as reported.
#[derive(Clone, Copy, Debug, PartialEq, Eq, Structural)]
pub enum FailureCause {
    /// `start` could not bring the session up.
    ConnectError,
    /// The session failed after it started.
    StreamError,
    /// The upstream ended the stream; retried like a failure.
    EndOfStream,
}

/// A failed attempt: its cause and its number in the current run of failures.
#[derive(Clone, Copy, Debug, PartialEq, Eq, Structural)]
pub struct Failure {
    pub cause: FailureCause,
    /// 1 for the first failure after a start or a healthy session.
    pub attempt: u32,
}

/// What the host does next.
#[derive(Clone, Copy, Debug, PartialEq, Eq, Structural)]
pub enum Action {
    /// Start a new session.
    StartSession,
    /// Poll the live session for its next event.
    PollSession,
    /// Stop the live session if there is one, report the failure, and wait
    /// `delay_secs` seconds with an interruptible wait.
    Retry { failure: Failure, delay_secs: u64 },
    /// Stop the live session if there is one, report the last failure if any, and
    /// end with the outcome.
    Finish { outcome: Outcome, last_failure: Option<Failure> },
}

/// The supervisor's state as its contracts see it.
#[derive(Clone, Copy, Debug, PartialEq, Eq, Structural)]
pub struct SupervisorState {
    pub phase: Phase,
    /// A started session is held and not yet stopped.
    pub live: bool,
    /// Failed attempts since the start or since the last healthy session.
    pub attempts: u32,
    pub base_delay_secs: u64,
    pub max_attempts: u32,
}

impl SupervisorState {
    /// At most one live session, only while an attempt runs; a healthy
    /// session has cleared the count; a bounded count never passes its
    /// bound, and stays below it while the supervisor runs.
    pub open spec fn wf(self) -> bool {
        &&& self.live ==> (self.phase == Phase::Starting || self.phase == Phase::Streaming)
        &&& self.phase == Phase::Streaming ==> self.live && self.attempts == 0
        &&& self.phase == Phase::Idle ==> self.attempts == 0
        &&& self.max_attempts > 0 ==> self.attempts <= self.max_attempts
        &&& self.max_attempts > 0 && !(self.phase is Stopped) ==> self.attempts < self.max_attempts
    }

    /// Whether `input` is an observation that can follow the last action.
    pub open spec fn expects(self, input: Input) -> bool {
        match input {
            Input::Begin => self.phase == Phase::Idle,
            Input::Started | Input::StartFailed(_) => self.phase == Phase::Starting && !self.live,
            Input::Event(_) => (self.phase == Phase::Starting || self.phase == Phase::Streaming)
                && self.live,
            Input::WaitOver => self.phase == Phase::Restarting,
        }
    }
}

/// The failure count plus one, held at `u32::MAX` in an unbounded run.
pub open spec fn bump(a: u32) -> u32 {
    if a < u32::MAX {
        (a + 1) as u32
    } else {
        a
    }
}

/// The terminal state with the given outcome; no session is held any more.
pub open spec fn stopped(s: SupervisorState, outcome: Outcome) -> SupervisorState {
    SupervisorState { phase: Phase::Stopped(outcome), live: false, ..s }
}

/// Before an attempt: start it if the policy permits, else give up.
pub open spec fn before_attempt(s: SupervisorState) -> (SupervisorState, Action) {
    if attempt_permitted(s.attempts as nat, s.max_attempts as nat, false) {
        (SupervisorState { phase: Phase::Starting, live: false, ..s }, Action::StartSession)
    } else {
        (
            stopped(s, Outcome::RetriesExhausted),
            Action::Finish { outcome: Outcome::RetriesExhausted, last_failure: None },
        )
    }
}

/// After a failed attempt: count it, then wait and retry if the policy
/// permits, else give up.
pub open spec fn after_failure(s: SupervisorState, cause: FailureCause) -> (
    SupervisorState,
    Action,
) {
    let a = bump(s.attempts);
    let failure = Failure { cause, attempt: a };
    if attempt_permitted(a as nat, s.max_attempts as nat, false) {
        (
            SupervisorState { phase: Phase::Restarting, live: false, attempts: a, ..s },
            Action::Retry { failure, delay_secs: s.base_delay_secs },
        )
    } else {
        (
            stopped(SupervisorState { attempts: a, ..s }, Outcome::RetriesExhausted),
            Action::Finish { outcome: Outcome::RetriesExhausted, last_failure: Some(failure) },
        )
    }
}

/// The transition on one observation. A shutdown seen at any point stops the
/// supervisor before anything else is considered.
pub open spec fn next(s: SupervisorState, input: Input, shutdown: bool) -> (
    SupervisorState,
    Action,
) {
    if shutdown {
        (
            stopped(s, Outcome::ShutdownRequested),
            Action::Finish { outcome: Outcome::ShutdownRequested, last_failure: None },
        )
    } else {
        match input {
            Input::Begin | Input::WaitOver => before_attempt(s),
            Input::Started => (SupervisorState { live: true, ..s }, Action::PollSession),
            Input::StartFailed(StartError::Config) => (
                stopped(s, Outcome::FatalConfigError),
                Action::Finish { outcome: Outcome::FatalConfigError, last_failure: None },
            ),
            Input::StartFailed(StartError::Connect) => after_failure(s, FailureCause::ConnectError),
            Input::Event(SessionEvent::Healthy) => (
                SupervisorState { phase: Phase::Streaming, attempts: 0, ..s },
                Action::PollSession,
            ),
            Input::Event(SessionEvent::Other) => (s, Action::PollSession),
            Input::Event(SessionEvent::Error) => after_failure(s, FailureCause::StreamError),
            Input::Event(SessionEvent::EndOfStream) => after_failure(s, FailureCause::EndOfStream),
        }
    }
}

/// The state in which a supervisor for `config` begins.
pub open spec fn initial(base_delay_secs: u64, max_attempts: u32) -> SupervisorState {
    SupervisorState {
        phase: Phase::Idle,
        live: false,
        attempts: 0,
        base_delay_secs,
        max_attempts,
    }
}

/// The resilient session supervisor.
pub struct Supervisor {
    state: SupervisorState,
}

impl View for Supervisor {
    type V = SupervisorState;

    closed spec fn view(&self) -> SupervisorState {
        self.state
    }
}

impl Supervisor {
    /// A supervisor in `Idle` for the configured delay and retry bound.
    pub fn new(config: &SupervisorConfig) -> (r: Supervisor)
        ensures
            r@ == initial(config.base_delay_secs, config.max_attempts),
            r@.wf(),
    {
        Supervisor {
            state: SupervisorState {
                phase: Phase::Idle,
                live: false,
                attempts: 0,
                base_delay_secs: config.base_delay_secs,
                max_attempts: config.max_attempts,
            },
        }
    }

    /// Whether `input` can be handed to `step` now.
    pub fn expects(&self, input: Input) -> (r: bool)
        ensures
            r == self@.expects(input),
    {
        let s = self.state;
        match input {
            Input::Begin => matches!(s.phase, Phase::Idle),
            Input::Started | Input::StartFailed(_) => matches!(s.phase, Phase::Starting) && !s.live,
            Input::Event(_) => (matches!(s.phase, Phase::Starting) || matches!(
                s.phase,
                Phase::Streaming
            )) && s.live,
            Input::WaitOver => matches!(s.phase, Phase::Restarting),
        }
    }

    /// The current phase.
    pub fn phase(&self) -> (r: Phase)
        ensures
            r == self@.phase,
    {
        self.state.phase
    }

    /// Failed attempts in the current run of failures.
    pub fn attempts(&self) -> (r: u32)
        ensures
            r == self@.attempts,
    {
        self.state.attempts
    }

    /// The configured bound on failed attempts (0 = unbounded).
    pub fn max_attempts(&self) -> (r: u32)
        ensures
            r == self@.max_attempts,
    {
        self.state.max_attempts
    }

    fn start_or_give_up(&mut self) -> (r: Action)
        requires
            old(self)@.wf(),
            old(self)@.phase == Phase::Idle || old(self)@.phase == Phase::Restarting,
        ensures
            (final(self)@, r) == before_attempt(old(self)@),
            final(self)@.wf(),
    {
        if may_attempt(self.state.attempts, self.state.max_attempts, false) {
            self.state.phase = Phase::Starting;
            self.state.live = false;
            Action::StartSession
        } else {
            self.state.phase = Phase::Stopped(Outcome::RetriesExhausted);
            self.state.live = false;
            Action::Finish { outcome: Outcome::RetriesExhausted, last_failure: None }
        }
    }

    fn fail_attempt(&mut self, cause: FailureCause) -> (r: Action)
        requires
            old(self)@.wf(),
            old(self)@.phase == Phase::Starting || old(self)@.phase == Phase::Streaming,
        ensures
            (final(self)@, r) == after_failure(old(self)@, cause),
            final(self)@.wf(),
    {
        let a: u32 = self.state.attempts.saturating_add(1);
        self.state.attempts = a;
        self.state.live = false;
        let failure = Failure { cause, attempt: a };
        if may_attempt(a, self.state.max_attempts, false) {
            self.state.phase = Phase::Restarting;
            Action::Retry {
                failure,
                delay_secs: next_delay(self.state.base_delay_secs, a),
            }
        } else {
            self.state.phase = Phase::Stopped(Outcome::RetriesExhausted);
            Action::Finish { outcome: Outcome::RetriesExhausted, last_failure: Some(failure) }
        }
    }

    /// Takes one observation and the shutdown flag as read with it, moves to
    /// the next state, and says what the host does next.
    pub fn step(&mut self, input: Input, shutdown: bool) -> (r: Action)
        requires
            old(self)@.wf(),
            old(self)@.expects(input),
        ensures
            (final(self)@, r) == next(old(self)@, input, shutdown),
            final(self)@.wf(),
    {
        if shutdown {
            self.state.phase = Phase::Stopped(Outcome::ShutdownRequested);
            self.state.live = false;
            return Action::Finish { outcome: Outcome::ShutdownRequested, last_failure: None };
        }
        match input {
            Input::Begin | Input::WaitOver => self.start_or_give_up(),
            Input::Started => {
                self.state.live = true;
                Action::PollSession
            },
            Input::StartFailed(StartError::Config) => {
                self.state.phase = Phase::Stopped(Outcome::FatalConfigError);
                self.state.live = false;
                Action::Finish { outcome: Outcome::FatalConfigError, last_failure: None }
            },
            Input::StartFailed(StartError::Connect) => self.fail_attempt(FailureCause::ConnectError),
            Input::Event(SessionEvent::Healthy) => {
                self.state.phase = Phase::Streaming;
                self.state.attempts = 0;
                Action::PollSession
            },
            Input::Event(SessionEvent::Other) => Action::PollSession,
            Input::Event(SessionEvent::Error) => self.fail_attempt(FailureCause::StreamError),
            Input::Event(SessionEvent::EndOfStream) => self.fail_attempt(FailureCause::EndOfStream),
        }
    }
}

/// A supervisor driven by a host in which every `start` fails with a connect
/// error and shutdown is never requested: the actions it asks for, for at
/// most `fuel` observations, until it stops.
pub open spec fn run_failing(s: SupervisorState, fuel: nat) -> Seq<Action>
    decreases fuel,
{
    if fuel == 0 || s.phase is Stopped {
        seq![]
    } else {
        let input = match s.phase {
            Phase::Idle => Input::Begin,
            Phase::Restarting => Input::WaitOver,
            _ => Input::StartFailed(StartError::Connect),
        };
        let (t, a) = next(s, input, false);
        seq![a] + run_failing(t, (fuel - 1) as nat)
    }
}

/// Shutdown wins: whatever is observed with the flag set, the supervisor
/// stops with `ShutdownRequested`, starts no session, holds none, and
/// accepts no further observation.
pub proof fn lemma_shutdown_stops(s: SupervisorState, input: Input)
    requires
        s.wf(),
        s.expects(input),
    ensures
        next(s, input, true).1 == (Action::Finish { outcome: Outcome::ShutdownRequested, last_failure: None }),
        next(s, input, true).0.phase == Phase::Stopped(Outcome::ShutdownRequested),
        !next(s, input, true).0.live,
        forall|i: Input| !#[trigger] next(s, input, true).0.expects(i),
{
}

/// A stopped supervisor accepts no observation, so it never starts another
/// session.
pub proof fn lemma_stopped_is_final(s: SupervisorState, i: Input)
    requires
        s.phase is Stopped,
    ensures
        !s.expects(i),
{
}

/// With no bound (`max_attempts == 0`) the supervisor never gives up on
/// retries: no step ends in `RetriesExhausted`, and the bound stays 0.
pub proof fn lemma_unbounded_never_exhausts(s: SupervisorState, input: Input, shutdown: bool)
    requires
        s.wf(),
        s.max_attempts == 0,
        s.expects(input),
    ensures
        next(s, input, shutdown).0.max_attempts == 0,
        next(s, input, shutdown).0.phase != Phase::Stopped(Outcome::RetriesExhausted),
        !(next(s, input, shutdown).1 matches Action::Finish { outcome: Outcome::RetriesExhausted, .. }),
{
}

/// A healthy session clears the failure count: after `Healthy` the
/// supervisor streams with a count of 0, it keeps doing so while polls
/// bring no failure, and the next failure it reports is attempt 1.
pub proof fn lemma_counter_reset(s: SupervisorState, input: Input)
    requires
        s.wf(),
        s.expects(input),
        s.phase == Phase::Streaming,
    ensures
        next(s, Input::Event(SessionEvent::Healthy), false).0.phase == Phase::Streaming,
        next(s, Input::Event(SessionEvent::Healthy), false).0.attempts == 0,
        next(s, input, false).1 == Action::PollSession ==> next(s, input, false).0.phase
            == Phase::Streaming && next(s, input, false).0.attempts == 0,
        next(s, input, false).1 matches Action::Retry { failure, .. } ==> failure.attempt == 1,
        next(s, input, false).1 matches Action::Finish { last_failure: Some(f), .. } ==> f.attempt == 1,
{
}

/// From an attempt under way after `a` failures, with all starts failing:
/// a retry for each of the failures `a + 1 .. n - 1`, each followed by a new
/// start, then the give-up that reports failure `n`.
proof fn lemma_failing_from(s: SupervisorState, fuel: nat)
    requires
        s.wf(),
        s.phase == Phase::Starting,
        !s.live,
        s.max_attempts > 0,
        fuel >= 2 * (s.max_attempts - s.attempts) - 1,
    ensures
        ({
            let r = run_failing(s, fuel);
            let n = s.max_attempts as int;
            let a = s.attempts as int;
            &&& r.len() == 2 * (n - a) - 1
            &&& forall|j: int|
                0 <= j < n - a - 1 ==> #[trigger] r[2 * j] == (Action::Retry {
                    failure: Failure { cause: FailureCause::ConnectError, attempt: (a + j + 1) as u32 },
                    delay_secs: s.base_delay_secs,
                })
            &&& forall|j: int| 0 <= j < n - a - 1 ==> #[trigger] r[2 * j + 1] == Action::StartSession
            &&& r[2 * (n - a) - 2] == (Action::Finish {
                outcome: Outcome::RetriesExhausted,
                last_failure: Some(Failure { cause: FailureCause::ConnectError, attempt: n as u32 }),
            })
        }),
    decreases s.max_attempts - s.attempts,
{
    let n = s.max_attempts as int;
    let a = s.attempts as int;
    let (t, act) = next(s, Input::StartFailed(StartError::Connect), false);
    let r = run_failing(s, fuel);
    assert(r == seq![act] + run_failing(t, (fuel - 1) as nat));
    if a + 1 < n {
        let (u, act2) = next(t, Input::WaitOver, false);
        let rest = run_failing(u, (fuel - 2) as nat);
        assert(run_failing(t, (fuel - 1) as nat) == seq![act2] + rest);
        lemma_failing_from(u, (fuel - 2) as nat);
        assert(r =~= seq![act, act2] + rest);
        assert forall|j: int| 0 <= j < n - a - 1 implies #[trigger] r[2 * j] == (Action::Retry {
            failure: Failure { cause: FailureCause::ConnectError, attempt: (a + j + 1) as u32 },
            delay_secs: s.base_delay_secs,
        }) by {
            if j > 0 {
                assert(r[2 * j] == rest[2 * (j - 1)]);
            }
        }
        assert forall|j: int| 0 <= j < n - a - 1 implies #[trigger] r[2 * j + 1] == Action::StartSession by {
            if j > 0 {
                assert(r[2 * j + 1] == rest[2 * (j - 1) + 1]);
            }
        }
        assert(r[2 * (n - a) - 2] == rest[2 * (n - a - 1) - 2]);
    } else {
        assert(run_failing(t, (fuel - 1) as nat) =~= seq![]);
        assert(r =~= seq![act]);
    }
}

/// With a bound `n > 0` and every attempt failing, the supervisor makes
/// exactly `n` attempts: failures `1 .. n - 1` each lead to a wait and a new
/// start, failure `n` ends it with `RetriesExhausted`, and nothing follows.
pub proof fn lemma_bounded_retries(base_delay_secs: u64, n: u32, fuel: nat)
    requires
        n > 0,
        fuel >= 2 * n,
    ensures
        ({
            let r = run_failing(initial(base_delay_secs, n), fuel);
            &&& r.len() == 2 * n
            &&& forall|i: int| 0 <= i < n ==> #[trigger] r[2 * i] == Action::StartSession
            &&& forall|i: int|
                0 <= i < n - 1 ==> #[trigger] r[2 * i + 1] == (Action::Retry {
                    failure: Failure { cause: FailureCause::ConnectError, attempt: (i + 1) as u32 },
                    delay_secs: base_delay_secs,
                })
            &&& r[2 * n - 1] == (Action::Finish {
                outcome: Outcome::RetriesExhausted,
                last_failure: Some(Failure { cause: FailureCause::ConnectError, attempt: n }),
            })
        }),
{
    let s0 = initial(base_delay_secs, n);
    let (s1, act) = next(s0, Input::Begin, false);
    let rest = run_failing(s1, (fuel - 1) as nat);
    let r = run_failing(s0, fuel);
    assert(r == seq![act] + rest);
    lemma_failing_from(s1, (fuel - 1) as nat);
    assert forall|i: int| 0 <= i < n implies #[trigger] r[2 * i] == Action::StartSession by {
        if i > 0 {
            assert(r[2 * i] == rest[2 * (i - 1) + 1]);
        }
    }
    assert forall|i: int| 0 <= i < n - 1 implies #[trigger] r[2 * i + 1] == (Action::Retry {
        failure: Failure { cause: FailureCause::ConnectError, attempt: (i + 1) as u32 },
        delay_secs: base_delay_secs,
    }) by {
        assert(r[2 * i + 1] == rest[2 * i]);
    }
    assert(r[2 * n - 1] == rest[2 * n - 2]);
}

} // verus!
