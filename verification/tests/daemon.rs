use cog::daemon::{Daemon, Turn};
use cog::error::RunnerError;
use cog::pipeline::Delivery;
use cog::runner::{PredictionRequest, PredictionResult};
use cog::server::Health;
use serde_json::Value;

fn num(number: i64) -> Value {
    let mut members = serde_json::Map::new();
    members.insert("num".to_string(), Value::from(number));
    Value::Object(members)
}

fn ask(id: i32, number: i64) -> PredictionRequest {
    PredictionRequest { id: Some(id), input: num(number) }
}

fn output<C>(delivery: &Delivery<C>) -> Option<i64> {
    match &delivery.response.result {
        PredictionResult::Succeeded(value) => value.as_i64(),
        _ => None,
    }
}

fn setup_failure<C>(turn: &Turn<C>) -> Option<String> {
    match &turn.error {
        Some(RunnerError::SetupFailed(reason)) => Some(reason.clone()),
        _ => None,
    }
}

#[test]
fn five_requests_come_back_doubled_and_in_order() {
    let mut daemon: Daemon<usize> = Daemon::new("code".to_string(), 1);
    daemon.finish_setup(Ok(()));
    for n in 0..5 {
        assert!(daemon.call(PredictionRequest { id: None, input: num(n as i64) }, n).is_ok());
    }
    assert_eq!(daemon.outstanding(), 5);

    let turn = daemon.turn();
    assert!(turn.failed.is_empty());
    assert!(turn.error.is_none());
    let outputs: Vec<Option<i64>> = turn.delivered.iter().map(output).collect();
    assert_eq!(outputs, vec![Some(0), Some(2), Some(4), Some(6), Some(8)]);
    let callers: Vec<usize> = turn.delivered.iter().map(|delivery| delivery.caller).collect();
    assert_eq!(callers, vec![0, 1, 2, 3, 4]);
    assert_eq!(daemon.outstanding(), 0);
}

#[test]
fn failed_setup_fails_calls_before_and_after() {
    let mut daemon: Daemon<&str> = Daemon::new("code".to_string(), 1);
    assert_eq!(daemon.health(), Health::Starting);
    assert!(daemon.call(ask(1, 1), "before").is_ok());
    let turn = daemon.turn();
    assert!(turn.delivered.is_empty() && turn.failed.is_empty() && turn.error.is_none());

    daemon.finish_setup(Err("missing weights".to_string()));
    assert_eq!(daemon.health(), Health::Starting);

    let turn = daemon.turn();
    assert!(turn.delivered.is_empty());
    assert_eq!(turn.failed, vec!["before"]);
    assert_eq!(setup_failure(&turn), Some("missing weights".to_string()));
    assert_eq!(daemon.health(), Health::Starting);

    for attempt in 0..3 {
        let issued = if attempt == 1 {
            daemon.try_call(ask(2, 2), "after")
        } else {
            daemon.call(ask(2, 2), "after")
        };
        match issued {
            Err(rejected) => {
                assert_eq!(rejected.caller, "after");
                match rejected.error {
                    RunnerError::SetupFailed(reason) => assert_eq!(reason, "missing weights"),
                    other => panic!("Unexpected error: {:?}", other),
                }
            }
            Ok(()) => panic!("a call was taken after setup had failed"),
        }
        assert_eq!(daemon.health(), Health::Starting);
    }

    daemon.finish_setup(Ok(()));
    assert_eq!(daemon.health(), Health::Starting);
    let turn = daemon.turn();
    assert!(turn.delivered.is_empty() && turn.failed.is_empty());
    assert_eq!(setup_failure(&turn), Some("missing weights".to_string()));
}

#[test]
fn failed_setup_is_told_at_the_call_that_follows_it() {
    let mut daemon: Daemon<u8> = Daemon::new(String::new(), 2);
    assert!(daemon.call(ask(1, 1), 1).is_ok());
    daemon.finish_setup(Err("missing weights".to_string()));
    match daemon.call(ask(2, 2), 2) {
        Err(rejected) => match rejected.error {
            RunnerError::SetupFailed(reason) => assert_eq!(reason, "missing weights"),
            other => panic!("Unexpected error: {:?}", other),
        },
        Ok(()) => panic!("a call was taken after setup had failed"),
    }
    let turn = daemon.turn();
    assert_eq!(turn.failed, vec![1]);
    assert_eq!(setup_failure(&turn), Some("missing weights".to_string()));
}

#[test]
fn canceled_caller_does_not_disturb_those_behind_it() {
    let mut daemon: Daemon<&str> = Daemon::new(String::new(), 1);
    daemon.finish_setup(Ok(()));
    assert!(daemon.call(ask(1, 100), "gone").is_ok());
    assert!(daemon.call(ask(2, 7), "second").is_ok());
    assert!(daemon.call(ask(3, 8), "third").is_ok());

    // The first caller has lost interest: whatever is delivered to it is
    // dropped. Its slot is served all the same.
    let turn = daemon.turn();
    assert_eq!(turn.delivered.len(), 3);
    let kept: Vec<&Delivery<&str>> =
        turn.delivered.iter().filter(|delivery| delivery.caller != "gone").collect();
    assert_eq!(kept.len(), 2);
    assert_eq!(kept[0].caller, "second");
    assert_eq!(kept[0].response.id, 2);
    assert_eq!(output(kept[0]), Some(14));
    assert_eq!(kept[1].caller, "third");
    assert_eq!(kept[1].response.id, 3);
    assert_eq!(output(kept[1]), Some(16));
}

#[test]
fn calls_issued_during_setup_are_served_once_it_succeeds() {
    let mut daemon: Daemon<char> = Daemon::new(String::new(), 1);
    assert!(daemon.call(ask(1, 1), 'a').is_ok());
    assert!(daemon.call(ask(2, 2), 'b').is_ok());
    for _ in 0..3 {
        let turn = daemon.turn();
        assert!(turn.delivered.is_empty() && turn.failed.is_empty() && turn.error.is_none());
        assert_eq!(daemon.outstanding(), 2);
    }
    assert!(daemon.call(ask(3, 3), 'c').is_ok());

    daemon.finish_setup(Ok(()));
    assert_eq!(daemon.health(), Health::Ready);
    let turn = daemon.turn();
    let seen: Vec<(char, i32, Option<i64>)> = turn
        .delivered
        .iter()
        .map(|delivery| (delivery.caller, delivery.response.id, output(delivery)))
        .collect();
    assert_eq!(seen, vec![('a', 1, Some(2)), ('b', 2, Some(4)), ('c', 3, Some(6))]);
}

#[test]
fn try_call_fails_fast_until_the_worker_is_ready() {
    let mut daemon: Daemon<u8> = Daemon::new(String::new(), 1);
    match daemon.try_call(ask(1, 1), 1) {
        Err(rejected) => {
            assert_eq!(rejected.caller, 1);
            assert!(matches!(rejected.error, RunnerError::NotReady));
        }
        Ok(()) => panic!("a call was taken before readiness"),
    }
    assert_eq!(daemon.outstanding(), 0);
    daemon.finish_setup(Ok(()));
    assert!(daemon.try_call(ask(1, 1), 1).is_ok());
    let turn = daemon.turn();
    assert_eq!(turn.delivered.len(), 1);
    assert_eq!(output(&turn.delivered[0]), Some(2));
}

#[test]
fn every_caller_gets_the_response_to_its_own_request() {
    let mut daemon: Daemon<i64> = Daemon::new(String::new(), 3);
    daemon.finish_setup(Ok(()));
    let mut answered = 0;
    for round in 0..4 {
        for n in 0..(round + 2) {
            let number = round * 100 + n;
            assert!(daemon.call(ask(number as i32, number), number).is_ok());
        }
        let turn = daemon.turn();
        assert_eq!(turn.delivered.len(), (round + 2) as usize);
        for (position, delivery) in turn.delivered.iter().enumerate() {
            assert_eq!(delivery.caller, round * 100 + position as i64);
            assert_eq!(delivery.response.id as i64, delivery.caller);
            assert_eq!(output(delivery), Some(2 * delivery.caller));
            answered += 1;
        }
    }
    assert_eq!(answered, 2 + 3 + 4 + 5);
    assert!(daemon.turn().delivered.is_empty());
}

#[test]
fn failed_prediction_is_an_answer_like_any_other() {
    let mut daemon: Daemon<u8> = Daemon::new(String::new(), 1);
    daemon.finish_setup(Ok(()));
    assert!(daemon.call(ask(1, 4), 1).is_ok());
    assert!(daemon.call(PredictionRequest { id: Some(2), input: Value::Null }, 2).is_ok());
    assert!(daemon.call(ask(3, 5), 3).is_ok());
    let turn = daemon.turn();
    assert_eq!(turn.delivered.len(), 3);
    assert_eq!(output(&turn.delivered[0]), Some(8));
    match &turn.delivered[1].response.result {
        PredictionResult::Failed(reason) => assert_eq!(reason, "Invalid input"),
        other => panic!("Unexpected result: {:?}", other),
    }
    assert_eq!(turn.delivered[1].caller, 2);
    assert_eq!(output(&turn.delivered[2]), Some(10));
    assert!(turn.error.is_none());
}

#[test]
fn shutdown_fails_outstanding_and_later_calls() {
    let mut daemon: Daemon<u8> = Daemon::new(String::new(), 1);
    daemon.finish_setup(Ok(()));
    assert!(daemon.call(ask(1, 1), 1).is_ok());
    assert_eq!(daemon.turn().delivered.len(), 1);

    assert!(daemon.call(ask(2, 2), 2).is_ok());
    daemon.shutdown();
    assert!(daemon.call(ask(3, 3), 3).is_ok());

    let turn = daemon.turn();
    assert!(turn.delivered.is_empty());
    assert_eq!(turn.failed, vec![2, 3]);
    assert!(matches!(turn.error, Some(RunnerError::WorkerUnavailable)));
    assert_eq!(daemon.outstanding(), 0);

    match daemon.call(ask(4, 4), 4) {
        Err(rejected) => {
            assert_eq!(rejected.caller, 4);
            assert!(matches!(rejected.error, RunnerError::WorkerUnavailable));
        }
        Ok(()) => panic!("a call was taken after shutdown"),
    }
    let turn = daemon.turn();
    assert!(turn.delivered.is_empty() && turn.failed.is_empty());
    assert!(matches!(turn.error, Some(RunnerError::WorkerUnavailable)));
}

#[test]
fn any_worker_answers_each_caller_for_its_own_request() {
    let negate = |input: Value| -> Result<Value, String> {
        match input.as_i64() {
            Some(number) if number != 0 => Ok(Value::from(-number)),
            Some(_) => Err("zero".to_string()),
            None => Err("not a number".to_string()),
        }
    };
    let mut daemon: Daemon<i64> = Daemon::new(String::new(), 2);
    daemon.finish_setup(Ok(()));
    for number in [5, 0, -7, 9] {
        let request = PredictionRequest { id: None, input: Value::from(number) };
        assert!(daemon.call(request, number).is_ok());
    }
    let turn = daemon.turn_with(&negate);
    assert_eq!(turn.delivered.len(), 4);
    for delivery in &turn.delivered {
        match &delivery.response.result {
            PredictionResult::Succeeded(value) => {
                assert_eq!(value.as_i64(), Some(-delivery.caller))
            }
            PredictionResult::Failed(reason) => {
                assert_eq!(delivery.caller, 0);
                assert_eq!(reason, "zero");
            }
            other => panic!("Unexpected result: {:?}", other),
        }
    }
    let callers: Vec<i64> = turn.delivered.iter().map(|delivery| delivery.caller).collect();
    assert_eq!(callers, vec![5, 0, -7, 9]);
}
