use cog::error::RunnerError;
use cog::readiness::{ReadinessGate, ReadinessState, ReadyPoll};

#[test]
fn readiness_starts_pending() {
    let readiness = ReadinessGate::new();
    assert!(matches!(readiness.state(), ReadinessState::Starting));
    assert!(matches!(readiness.poll(), ReadyPoll::Pending));
    assert!(readiness.await_ready().is_none());
    assert!(!readiness.is_ready());
}

#[test]
fn readiness_opens_on_success() {
    let mut readiness = ReadinessGate::new();
    assert!(readiness.resolve(Ok(())));
    assert!(matches!(readiness.state(), ReadinessState::Ready));
    assert!(matches!(readiness.poll(), ReadyPoll::Ready));
    assert!(matches!(readiness.await_ready(), Some(Ok(()))));
    assert!(readiness.is_ready());
}

#[test]
fn readiness_fails_with_the_reason_of_setup() {
    let mut readiness = ReadinessGate::new();
    assert!(readiness.resolve(Err("missing weights".to_string())));
    match readiness.state() {
        ReadinessState::SetupFailed(reason) => assert_eq!(reason, "missing weights"),
        other => panic!("Unexpected state: {:?}", other),
    }
    match readiness.poll() {
        ReadyPoll::Failed(RunnerError::SetupFailed(reason)) => assert_eq!(reason, "missing weights"),
        other => panic!("Unexpected poll: {:?}", other),
    }
    match readiness.await_ready() {
        Some(Err(RunnerError::SetupFailed(reason))) => assert_eq!(reason, "missing weights"),
        other => panic!("Unexpected outcome: {:?}", other),
    }
    assert!(!readiness.is_ready());
}

#[test]
fn success_is_never_taken_back() {
    let mut readiness = ReadinessGate::new();
    assert!(readiness.resolve(Ok(())));
    assert!(!readiness.resolve(Err("late".to_string())));
    assert!(!readiness.resolve(Ok(())));
    for _ in 0..3 {
        assert!(matches!(readiness.poll(), ReadyPoll::Ready));
        assert!(matches!(readiness.await_ready(), Some(Ok(()))));
    }
}

#[test]
fn failure_is_seen_by_every_observer_alike() {
    let mut readiness = ReadinessGate::new();
    assert!(readiness.resolve(Err("first".to_string())));
    assert!(!readiness.resolve(Ok(())));
    assert!(!readiness.resolve(Err("second".to_string())));
    for _ in 0..3 {
        match readiness.await_ready() {
            Some(Err(RunnerError::SetupFailed(reason))) => assert_eq!(reason, "first"),
            other => panic!("Unexpected outcome: {:?}", other),
        }
        assert!(!readiness.is_ready());
    }
}
