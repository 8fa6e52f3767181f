use stream_supervisor::config::{ConfigError, SupervisorConfig};
use stream_supervisor::policy::{may_attempt, next_delay};
use stream_supervisor::supervisor::{
    Action, Failure, FailureCause, Input, Outcome, Phase, SessionEvent, StartError, Supervisor,
};
use stream_supervisor::waiter::{WaitEnd, WaitStep, Waiter, QUANTUM_MS};

fn config(delay: u64, max: u32) -> SupervisorConfig {
    SupervisorConfig::new(
        "rtsp://localhost:8554/cam1".to_string(),
        "srt://127.0.0.1:8890?streamid=publish:cam1".to_string(),
        delay,
        max,
    )
    .unwrap()
}

fn feed(sup: &mut Supervisor, input: Input, shutdown: bool) -> Action {
    assert!(sup.expects(input));
    sup.step(input, shutdown)
}

/// Runs a wait to its end; `shutdown_at` is the check at which the flag is first seen set.
fn run_wait(secs: u64, shutdown_at: Option<usize>) -> (u64, WaitEnd) {
    let mut w = Waiter::from_secs(secs);
    let mut slept: u64 = 0;
    let mut check: usize = 0;
    loop {
        let flag = shutdown_at.map_or(false, |k| check >= k);
        match w.step(flag) {
            WaitStep::Sleep(ms) => {
                assert!(ms <= QUANTUM_MS);
                slept += ms;
            }
            WaitStep::Done(end) => return (slept, end),
        }
        check += 1;
    }
}

#[test]
fn bounded_retries_all_connect_errors() {
    let mut sup = Supervisor::new(&config(5, 3));
    let mut failures = Vec::new();
    let mut waits = Vec::new();
    let mut action = feed(&mut sup, Input::Begin, false);
    let outcome = loop {
        match action {
            Action::StartSession => {
                action = feed(&mut sup, Input::StartFailed(StartError::Connect), false);
            }
            Action::Retry { failure, delay_secs } => {
                failures.push(failure);
                waits.push(delay_secs);
                let (slept, end) = run_wait(delay_secs, None);
                assert_eq!(slept, 5000);
                assert_eq!(end, WaitEnd::Elapsed);
                action = feed(&mut sup, Input::WaitOver, false);
            }
            Action::Finish { outcome, last_failure } => {
                if let Some(f) = last_failure {
                    failures.push(f);
                }
                break outcome;
            }
            Action::PollSession => panic!("no session was started"),
        }
    };
    let numbers: Vec<u32> = failures.iter().map(|f| f.attempt).collect();
    assert_eq!(numbers, vec![1, 2, 3]);
    assert!(failures.iter().all(|f| f.cause == FailureCause::ConnectError));
    assert_eq!(waits, vec![5, 5]);
    assert_eq!(outcome, Outcome::RetriesExhausted);
    assert_eq!(sup.phase(), Phase::Stopped(Outcome::RetriesExhausted));
}

#[test]
fn unbounded_reset_then_shutdown_during_wait() {
    let mut sup = Supervisor::new(&config(5, 0));
    assert_eq!(feed(&mut sup, Input::Begin, false), Action::StartSession);
    let a = feed(&mut sup, Input::StartFailed(StartError::Connect), false);
    assert_eq!(
        a,
        Action::Retry {
            failure: Failure { cause: FailureCause::ConnectError, attempt: 1 },
            delay_secs: 5
        }
    );
    assert_eq!(feed(&mut sup, Input::WaitOver, false), Action::StartSession);
    assert_eq!(feed(&mut sup, Input::Started, false), Action::PollSession);
    assert_eq!(feed(&mut sup, Input::Event(SessionEvent::Other), false), Action::PollSession);
    assert_eq!(feed(&mut sup, Input::Event(SessionEvent::Healthy), false), Action::PollSession);
    assert_eq!(sup.phase(), Phase::Streaming);
    assert_eq!(sup.attempts(), 0);
    let a = feed(&mut sup, Input::Event(SessionEvent::Error), false);
    assert_eq!(
        a,
        Action::Retry {
            failure: Failure { cause: FailureCause::StreamError, attempt: 1 },
            delay_secs: 5
        }
    );
    assert_eq!(feed(&mut sup, Input::WaitOver, false), Action::StartSession);
    let a = feed(&mut sup, Input::StartFailed(StartError::Connect), false);
    assert_eq!(
        a,
        Action::Retry {
            failure: Failure { cause: FailureCause::ConnectError, attempt: 2 },
            delay_secs: 5
        }
    );
    let (slept, end) = run_wait(5, Some(3));
    assert_eq!(end, WaitEnd::Interrupted);
    assert_eq!(slept, 3 * QUANTUM_MS);
    assert!(slept < 5000);
    let a = feed(&mut sup, Input::WaitOver, true);
    assert_eq!(
        a,
        Action::Finish { outcome: Outcome::ShutdownRequested, last_failure: None }
    );
    assert_eq!(sup.phase(), Phase::Stopped(Outcome::ShutdownRequested));
}

#[test]
fn config_error_on_first_start_is_fatal() {
    let mut sup = Supervisor::new(&config(5, 0));
    assert_eq!(feed(&mut sup, Input::Begin, false), Action::StartSession);
    let a = feed(&mut sup, Input::StartFailed(StartError::Config), false);
    assert_eq!(a, Action::Finish { outcome: Outcome::FatalConfigError, last_failure: None });
    assert_eq!(sup.phase(), Phase::Stopped(Outcome::FatalConfigError));
    assert!(!sup.expects(Input::WaitOver));
    assert!(!sup.expects(Input::Begin));
}

#[test]
fn shutdown_while_streaming_stops_at_next_poll() {
    let mut sup = Supervisor::new(&config(5, 2));
    feed(&mut sup, Input::Begin, false);
    feed(&mut sup, Input::Started, false);
    feed(&mut sup, Input::Event(SessionEvent::Healthy), false);
    let a = feed(&mut sup, Input::Event(SessionEvent::Other), true);
    assert_eq!(a, Action::Finish { outcome: Outcome::ShutdownRequested, last_failure: None });
    for i in [
        Input::Begin,
        Input::Started,
        Input::StartFailed(StartError::Connect),
        Input::Event(SessionEvent::Healthy),
        Input::WaitOver,
    ] {
        assert!(!sup.expects(i));
    }
}

#[test]
fn shutdown_before_begin_starts_nothing() {
    let mut sup = Supervisor::new(&config(1, 0));
    let a = feed(&mut sup, Input::Begin, true);
    assert_eq!(a, Action::Finish { outcome: Outcome::ShutdownRequested, last_failure: None });
}

#[test]
fn unbounded_never_exhausts_after_many_failures() {
    let mut sup = Supervisor::new(&config(0, 0));
    feed(&mut sup, Input::Begin, false);
    for n in 1..=1000u32 {
        let cause = if n % 2 == 0 { SessionEvent::EndOfStream } else { SessionEvent::Error };
        feed(&mut sup, Input::Started, false);
        let a = feed(&mut sup, Input::Event(cause), false);
        match a {
            Action::Retry { failure, delay_secs } => {
                assert_eq!(failure.attempt, n);
                assert_eq!(delay_secs, 0);
            }
            other => panic!("unexpected action {:?}", other),
        }
        assert_eq!(feed(&mut sup, Input::WaitOver, false), Action::StartSession);
    }
    assert_eq!(sup.attempts(), 1000);
}

#[test]
fn end_of_stream_while_streaming_counts_as_attempt_one() {
    let mut sup = Supervisor::new(&config(2, 1));
    feed(&mut sup, Input::Begin, false);
    feed(&mut sup, Input::Started, false);
    feed(&mut sup, Input::Event(SessionEvent::Healthy), false);
    let a = feed(&mut sup, Input::Event(SessionEvent::EndOfStream), false);
    assert_eq!(
        a,
        Action::Finish {
            outcome: Outcome::RetriesExhausted,
            last_failure: Some(Failure { cause: FailureCause::EndOfStream, attempt: 1 })
        }
    );
}

#[test]
fn error_before_healthy_is_a_failed_attempt() {
    let mut sup = Supervisor::new(&config(7, 4));
    feed(&mut sup, Input::Begin, false);
    feed(&mut sup, Input::Started, false);
    let a = feed(&mut sup, Input::Event(SessionEvent::Error), false);
    assert_eq!(
        a,
        Action::Retry {
            failure: Failure { cause: FailureCause::StreamError, attempt: 1 },
            delay_secs: 7
        }
    );
    assert_eq!(sup.phase(), Phase::Restarting);
    assert_eq!(sup.max_attempts(), 4);
    assert!(!sup.expects(Input::Event(SessionEvent::Other)));
}

#[test]
fn policy_decisions() {
    assert!(may_attempt(0, 0, false));
    assert!(may_attempt(u32::MAX, 0, false));
    assert!(may_attempt(2, 3, false));
    assert!(!may_attempt(3, 3, false));
    assert!(!may_attempt(0, 0, true));
    assert!(!may_attempt(0, 5, true));
    assert_eq!(next_delay(5, 0), 5);
    assert_eq!(next_delay(5, 17), 5);
}

#[test]
fn waiter_steps_and_caps() {
    let mut w = Waiter::new(250);
    assert_eq!(w.step(false), WaitStep::Sleep(100));
    assert_eq!(w.step(false), WaitStep::Sleep(100));
    assert_eq!(w.step(false), WaitStep::Sleep(50));
    assert_eq!(w.step(false), WaitStep::Done(WaitEnd::Elapsed));
    let mut z = Waiter::new(0);
    assert_eq!(z.step(false), WaitStep::Done(WaitEnd::Elapsed));
    let mut i = Waiter::new(1000);
    assert_eq!(i.step(true), WaitStep::Done(WaitEnd::Interrupted));
    assert_eq!(run_wait(0, None), (0, WaitEnd::Elapsed));
    assert_eq!(run_wait(2, Some(0)), (0, WaitEnd::Interrupted));
    let mut huge = Waiter::from_secs(u64::MAX);
    assert_eq!(huge.step(false), WaitStep::Sleep(100));
}

#[test]
fn config_validation() {
    let e = SupervisorConfig::new(String::new(), "srt://x".to_string(), 5, 0);
    assert_eq!(e.err(), Some(ConfigError::EmptySource));
    let e = SupervisorConfig::new("rtsp://x".to_string(), String::new(), 5, 0);
    assert_eq!(e.err(), Some(ConfigError::EmptyDestination));
    let c = SupervisorConfig::new("rtsp://a".to_string(), "srt://b".to_string(), 9, 4).unwrap();
    assert_eq!(c.source, "rtsp://a");
    assert_eq!(c.destination, "srt://b");
    assert_eq!(c.base_delay_secs, 9);
    assert_eq!(c.max_attempts, 4);
}

#[test]
fn launch_description_names_both_endpoints() {
    let c = config(5, 0);
    assert_eq!(
        stream_supervisor::transport::launch_description(&c),
        "rtspsrc location=rtsp://localhost:8554/cam1 latency=100 ! rtph264depay ! mpegtsmux ! \
         srtclientsink uri=srt://127.0.0.1:8890?streamid=publish:cam1"
    );
}
