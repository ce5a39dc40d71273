use cog::connection::{ChannelTransport, Inbound};
use cog::error::RunnerError;
use cog::pipeline::{ClientState, ClientTransport, PipelineClient};
use cog::readiness::{ReadinessState, ReadyPoll};
use cog::runner::{PredictionRequest, PredictionResponse, PredictionResult};
use serde_json::Value;

type WorkerEnd = ChannelTransport<PredictionRequest, PredictionResponse>;

fn ask(id: i32) -> PredictionRequest {
    PredictionRequest { id: Some(id), input: Value::Null }
}

fn answer(id: i32) -> PredictionResponse {
    PredictionResponse { id, result: PredictionResult::Succeeded(Value::from(id)) }
}

fn serving() -> (PipelineClient<&'static str>, ClientTransport, WorkerEnd) {
    let mut client = PipelineClient::new();
    assert!(matches!(client.poll_ready(&ReadinessState::Ready), ReadyPoll::Ready));
    (client, ChannelTransport::new(), ChannelTransport::new())
}

#[test]
fn client_awaits_readiness_first() {
    let mut client: PipelineClient<u8> = PipelineClient::new();
    assert!(matches!(client.state(), ClientState::AwaitingReadiness));
    assert!(matches!(client.poll_ready(&ReadinessState::Starting), ReadyPoll::Pending));
    assert!(matches!(client.state(), ClientState::AwaitingReadiness));
    assert!(client.error().is_none());
    assert!(matches!(client.poll_ready(&ReadinessState::Ready), ReadyPoll::Ready));
    assert!(matches!(client.state(), ClientState::Serving));
}

#[test]
fn serving_is_permanent() {
    let (mut client, _, _) = serving();
    assert!(matches!(client.poll_ready(&ReadinessState::Starting), ReadyPoll::Ready));
    let failed = ReadinessState::SetupFailed("late".to_string());
    assert!(matches!(client.poll_ready(&failed), ReadyPoll::Ready));
    assert!(matches!(client.state(), ClientState::Serving));
}

#[test]
fn requests_leave_in_the_order_of_the_calls() {
    let (mut client, mut wire, mut worker) = serving();
    for (id, caller) in [(1, "a"), (2, "b"), (3, "c")] {
        assert!(client.call(&mut wire, ask(id), caller).is_ok());
    }
    assert_eq!(client.outstanding(), 3);
    wire.exchange(&mut worker);
    for id in [1, 2, 3] {
        match worker.poll_next() {
            Inbound::Item(request) => assert_eq!(request.id, Some(id)),
            _ => panic!("request {} did not arrive", id),
        }
    }
}

#[test]
fn responses_go_to_callers_by_position() {
    let (mut client, mut wire, mut worker) = serving();
    for (id, caller) in [(1, "a"), (2, "b"), (3, "c")] {
        client.call(&mut wire, ask(id), caller).unwrap_or_else(|_| panic!("call refused"));
    }
    worker.start_send(answer(10)).unwrap();
    worker.start_send(answer(20)).unwrap();
    worker.exchange(&mut wire);

    let delivered = client.poll_responses(&mut wire);
    assert_eq!(delivered.len(), 2);
    assert_eq!(delivered[0].caller, "a");
    assert_eq!(delivered[0].response.id, 10);
    assert_eq!(delivered[1].caller, "b");
    assert_eq!(delivered[1].response.id, 20);
    assert_eq!(client.outstanding(), 1);
    assert!(matches!(client.state(), ClientState::Serving));

    worker.start_send(answer(30)).unwrap();
    worker.exchange(&mut wire);
    let delivered = client.poll_responses(&mut wire);
    assert_eq!(delivered.len(), 1);
    assert_eq!(delivered[0].caller, "c");
    assert_eq!(delivered[0].response.id, 30);
    assert_eq!(client.outstanding(), 0);
}

#[test]
fn nothing_arrived_means_nothing_delivered() {
    let (mut client, mut wire, _) = serving();
    client.call(&mut wire, ask(1), "a").unwrap_or_else(|_| panic!("call refused"));
    assert!(client.poll_responses(&mut wire).is_empty());
    assert_eq!(client.outstanding(), 1);
    assert!(matches!(client.state(), ClientState::Serving));
}

#[test]
fn surplus_response_closes_the_client() {
    let (mut client, mut wire, mut worker) = serving();
    client.call(&mut wire, ask(1), "a").unwrap_or_else(|_| panic!("call refused"));
    worker.start_send(answer(1)).unwrap();
    worker.start_send(answer(2)).unwrap();
    worker.start_send(answer(3)).unwrap();
    worker.exchange(&mut wire);

    let delivered = client.poll_responses(&mut wire);
    assert_eq!(delivered.len(), 1);
    assert_eq!(delivered[0].caller, "a");
    assert_eq!(delivered[0].response.id, 1);
    assert!(matches!(client.state(), ClientState::Closed));
    assert_eq!(wire.inbound(), 1);
    assert!(matches!(client.error(), Some(RunnerError::WorkerUnavailable)));
    match client.call(&mut wire, ask(2), "b") {
        Err(rejected) => {
            assert_eq!(rejected.caller, "b");
            assert!(matches!(rejected.error, RunnerError::WorkerUnavailable));
        }
        Ok(()) => panic!("a closed client took a call"),
    }
}

#[test]
fn try_call_fails_fast_before_readiness() {
    let mut client: PipelineClient<u8> = PipelineClient::new();
    let mut wire: ClientTransport = ChannelTransport::new();
    match client.try_call(&mut wire, ask(1), 7) {
        Err(rejected) => {
            assert_eq!(rejected.caller, 7);
            assert!(matches!(rejected.error, RunnerError::NotReady));
        }
        Ok(()) => panic!("a call was taken before readiness"),
    }
    assert_eq!(client.outstanding(), 0);
    assert_eq!(wire.outbound(), 0);

    assert!(client.call(&mut wire, ask(1), 7).is_ok());
    assert_eq!(client.outstanding(), 1);
    assert_eq!(wire.outbound(), 1);

    client.poll_ready(&ReadinessState::Ready);
    assert!(client.try_call(&mut wire, ask(2), 8).is_ok());
    assert_eq!(client.outstanding(), 2);
}

#[test]
fn setup_failure_is_permanent_at_the_client() {
    let mut client: PipelineClient<u8> = PipelineClient::new();
    let mut wire: ClientTransport = ChannelTransport::new();
    assert!(client.call(&mut wire, ask(1), 1).is_ok());

    let failed = ReadinessState::SetupFailed("missing weights".to_string());
    match client.poll_ready(&failed) {
        ReadyPoll::Failed(RunnerError::SetupFailed(reason)) => assert_eq!(reason, "missing weights"),
        other => panic!("Unexpected readiness: {:?}", other),
    }
    assert_eq!(client.abort(), vec![1]);
    assert_eq!(client.outstanding(), 0);

    for readiness in [ReadinessState::Ready, ReadinessState::Starting] {
        match client.poll_ready(&readiness) {
            ReadyPoll::Failed(RunnerError::SetupFailed(reason)) => {
                assert_eq!(reason, "missing weights")
            }
            other => panic!("Unexpected readiness: {:?}", other),
        }
    }
    for attempt in 0..2 {
        let issued = if attempt == 0 {
            client.call(&mut wire, ask(2), 2)
        } else {
            client.try_call(&mut wire, ask(2), 2)
        };
        match issued {
            Err(rejected) => match rejected.error {
                RunnerError::SetupFailed(reason) => assert_eq!(reason, "missing weights"),
                other => panic!("Unexpected error: {:?}", other),
            },
            Ok(()) => panic!("a failed client took a call"),
        }
    }
    wire.close();
    assert!(client.poll_responses(&mut wire).is_empty());
    assert!(matches!(client.state(), ClientState::SetupFailed(_)));
}

#[test]
fn closed_transport_closes_the_client() {
    let (mut client, mut wire, mut worker) = serving();
    client.call(&mut wire, ask(1), "a").unwrap_or_else(|_| panic!("call refused"));
    client.call(&mut wire, ask(2), "b").unwrap_or_else(|_| panic!("call refused"));
    worker.start_send(answer(1)).unwrap();
    worker.close();
    worker.exchange(&mut wire);

    let delivered = client.poll_responses(&mut wire);
    assert_eq!(delivered.len(), 1);
    assert_eq!(delivered[0].caller, "a");
    assert!(matches!(client.state(), ClientState::Closed));
    assert_eq!(client.abort(), vec!["b"]);
    assert!(client.abort().is_empty());
    assert!(matches!(
        client.poll_ready(&ReadinessState::Ready),
        ReadyPoll::Failed(RunnerError::WorkerUnavailable)
    ));
}

#[test]
fn call_on_a_closed_transport_fails_and_closes() {
    let (mut client, mut wire, _) = serving();
    wire.close();
    match client.call(&mut wire, ask(1), "a") {
        Err(rejected) => {
            assert_eq!(rejected.caller, "a");
            assert!(matches!(rejected.error, RunnerError::WorkerUnavailable));
        }
        Ok(()) => panic!("a call was sent on a closed transport"),
    }
    assert!(matches!(client.state(), ClientState::Closed));
    assert_eq!(client.outstanding(), 0);
}

#[test]
fn abort_keeps_the_callers_of_a_healthy_client() {
    let (mut client, mut wire, _) = serving();
    client.call(&mut wire, ask(1), "a").unwrap_or_else(|_| panic!("call refused"));
    assert!(client.abort().is_empty());
    assert_eq!(client.outstanding(), 1);
}
