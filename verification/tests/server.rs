use cog::error::RunnerError;
use cog::readiness::ReadinessState;
use cog::runner::{PredictionResponse, PredictionResult};
use cog::server::{
    error_status, exit_code, exit_error, handle_error, port_text, predict, root, Exit, Health,
    Server, STATUS_INTERNAL_SERVER_ERROR, STATUS_OK, STATUS_REQUEST_TIMEOUT,
    STATUS_SERVICE_UNAVAILABLE,
};

#[test]
fn server_keeps_host_and_port() {
    let server = Server::new("0.0.0.0".to_string(), 8080);
    assert_eq!(server.host(), "0.0.0.0");
    assert_eq!(server.port(), 8080);
}

#[test]
fn address_joins_host_and_port() {
    assert_eq!(Server::new("0.0.0.0".to_string(), 8080).address(), "0.0.0.0:8080");
    assert_eq!(Server::new("localhost".to_string(), 0).address(), "localhost:0");
    assert_eq!(Server::new("::1".to_string(), 65535).address(), "::1:65535");
    assert_eq!(Server::new(String::new(), 7).address(), ":7");
}

#[test]
fn port_text_is_plain_decimal() {
    for port in [0u16, 1, 9, 10, 11, 99, 100, 101, 999, 1000, 8080, 9999, 10000, 65535] {
        assert_eq!(port_text(port), port.to_string());
    }
}

#[test]
fn health_follows_readiness() {
    assert_eq!(Health::of(&ReadinessState::Starting), Health::Starting);
    assert_eq!(Health::of(&ReadinessState::Ready), Health::Ready);
    assert_eq!(
        Health::of(&ReadinessState::SetupFailed("missing weights".to_string())),
        Health::Starting
    );
    assert_eq!(Health::default(), Health::Starting);
    assert_eq!(Health::Starting.as_str(), "starting");
    assert_eq!(Health::Ready.as_str(), "ready");
}

#[test]
fn root_greets() {
    assert_eq!(root(), "Hello, World!");
}

#[test]
fn statuses_have_their_http_values() {
    assert_eq!(STATUS_OK, 200);
    assert_eq!(STATUS_REQUEST_TIMEOUT, 408);
    assert_eq!(STATUS_INTERNAL_SERVER_ERROR, 500);
    assert_eq!(STATUS_SERVICE_UNAVAILABLE, 503);
}

#[test]
fn errors_map_to_statuses() {
    assert_eq!(error_status(&RunnerError::NotReady), 503);
    assert_eq!(error_status(&RunnerError::SetupFailed("x".to_string())), 503);
    assert_eq!(error_status(&RunnerError::WorkerUnavailable), 500);
}

#[test]
fn predict_answers_every_response_with_ok() {
    for result in [
        PredictionResult::Succeeded(serde_json::Value::from(2)),
        PredictionResult::Failed("Invalid input".to_string()),
        PredictionResult::Canceled,
    ] {
        assert_eq!(predict(&Ok(PredictionResponse { id: 1, result })), 200);
    }
    assert_eq!(predict(&Err(RunnerError::NotReady)), 503);
    assert_eq!(predict(&Err(RunnerError::SetupFailed("missing weights".to_string()))), 503);
    assert_eq!(predict(&Err(RunnerError::WorkerUnavailable)), 500);
}

#[test]
fn handle_error_tells_timeouts_from_the_rest() {
    assert_eq!(
        handle_error(true, "deadline has elapsed"),
        (408, "Request took too long".to_string())
    );
    assert_eq!(
        handle_error(false, "boom"),
        (500, "Unhandled internal error: boom".to_string())
    );
    assert_eq!(handle_error(false, ""), (500, "Unhandled internal error: ".to_string()));
}

#[test]
fn exits_are_errors() {
    assert_eq!(exit_error(Exit::Server), "Server exited unexpectedly");
    assert_eq!(exit_error(Exit::Runner), "Runner exited unexpectedly");
    assert_eq!(exit_code(&Ok(())), 0);
    assert_eq!(exit_code(&Err(exit_error(Exit::Runner).to_string())), 1);
}

#[test]
fn error_messages() {
    assert_eq!(
        RunnerError::SetupFailed("missing weights".to_string()).message(),
        "Setup failed: missing weights"
    );
    assert_eq!(RunnerError::SetupFailed(String::new()).message(), "Setup failed: ");
    assert_eq!(RunnerError::WorkerUnavailable.message(), "channel closed");
    assert_eq!(RunnerError::NotReady.message(), "Setup has not finished");
}
