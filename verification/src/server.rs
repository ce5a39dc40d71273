//! What the HTTP front decides: where to listen, what health to report, and
//! which status answers which outcome. The front itself, with its sockets
//! and its routes, is not here.

use crate::error::RunnerError;
use crate::readiness::{ReadinessModel, ReadinessState};
use crate::runner::PredictionResponse;
use vstd::prelude::*;
use vstd::string::*;

verus! {

/// The status of a response that carries a prediction.
pub const STATUS_OK: u16 = 200;

/// The status of a request that took too long.
pub const STATUS_REQUEST_TIMEOUT: u16 = 408;

/// The status of a request that met a fault behind the front.
pub const STATUS_INTERNAL_SERVER_ERROR: u16 = 500;

/// The status of a request that came while the worker cannot serve.
pub const STATUS_SERVICE_UNAVAILABLE: u16 = 503;

/// The character that stands for a decimal digit.
pub open spec fn digit(d: nat) -> char {
    if d == 0 {
        '0'
    } else if d == 1 {
        '1'
    } else if d == 2 {
        '2'
    } else if d == 3 {
        '3'
    } else if d == 4 {
        '4'
    } else if d == 5 {
        '5'
    } else if d == 6 {
        '6'
    } else if d == 7 {
        '7'
    } else if d == 8 {
        '8'
    } else {
        '9'
    }
}

/// A number in decimal notation, without leading zeros.
pub open spec fn decimal(n: nat) -> Seq<char>
    decreases n,
{
    if n < 10 {
        seq![digit(n)]
    } else {
        decimal(n / 10).push(digit(n % 10))
    }
}

fn digit_str(d: u16) -> (text: &'static str)
    requires
        d < 10,
    ensures
        text@ == seq![digit(d as nat)],
{
    proof {
        reveal_strlit("0");
        reveal_strlit("1");
        reveal_strlit("2");
        reveal_strlit("3");
        reveal_strlit("4");
        reveal_strlit("5");
        reveal_strlit("6");
        reveal_strlit("7");
        reveal_strlit("8");
        reveal_strlit("9");
    }
    if d == 0 {
        "0"
    } else if d == 1 {
        "1"
    } else if d == 2 {
        "2"
    } else if d == 3 {
        "3"
    } else if d == 4 {
        "4"
    } else if d == 5 {
        "5"
    } else if d == 6 {
        "6"
    } else if d == 7 {
        "7"
    } else if d == 8 {
        "8"
    } else {
        "9"
    }
}

/// Writes a port number in decimal notation.
pub fn port_text(port: u16) -> (text: String)
    ensures
        text@ == decimal(port as nat),
    decreases port,
{
    if port < 10 {
        String::from_str(digit_str(port))
    } else {
        let mut text = port_text(port / 10);
        text.append(digit_str(port % 10));
        text
    }
}

/// Where the front listens.
pub struct Server {
    host: String,
    port: u16,
}

/// A `Server` as a mathematical value.
pub struct ServerModel {
    pub host: Seq<char>,
    pub port: u16,
}

impl ServerModel {
    /// The address in the form in which a socket wants it: the host, a
    /// colon, and the port in decimal.
    pub open spec fn address(self) -> Seq<char> {
        self.host + seq![':'] + decimal(self.port as nat)
    }
}

impl View for Server {
    type V = ServerModel;

    closed spec fn view(&self) -> ServerModel {
        ServerModel { host: self.host@, port: self.port }
    }
}

impl Server {
    /// A server that is to listen on `host` and `port`.
    pub fn new(host: String, port: u16) -> (server: Self)
        ensures
            server@ == (ServerModel { host: host@, port }),
    {
        Self { host, port }
    }

    /// The host to listen on.
    pub fn host(&self) -> (host: &String)
        ensures
            host@ == self@.host,
    {
        &self.host
    }

    /// The port to listen on.
    pub fn port(&self) -> (port: u16)
        ensures
            port == self@.port,
    {
        self.port
    }

    /// The address to bind to.
    pub fn address(&self) -> (address: String)
        ensures
            address@ == self@.address(),
    {
        proof {
            reveal_strlit(":");
        }
        let mut address = self.host.clone();
        address.append(":");
        let port = port_text(self.port);
        address.append(port.as_str());
        address
    }
}

/// What the health route reports.
#[derive(Clone, Copy, Debug, PartialEq, Eq, Structural)]
pub enum Health {
    /// The worker cannot serve: its setup still runs, or it has failed.
    Starting,
    /// The worker serves.
    Ready,
}

impl Default for Health {
    fn default() -> (health: Self)
        ensures
            health == Health::Starting,
    {
        Health::Starting
    }
}

impl Health {
    /// The health to report for a state of the worker's setup: ready if
    /// setup has succeeded, and in no other case.
    pub fn of(readiness: &ReadinessState) -> (health: Health)
        ensures
            health == Health::Ready <==> readiness@ is Ready,
    {
        match readiness {
            ReadinessState::Ready => Health::Ready,
            _ => Health::Starting,
        }
    }

    /// The word that the health route answers with.
    pub fn as_str(&self) -> (word: &'static str)
        ensures
            word@ == (match self {
                Health::Starting => "starting"@,
                Health::Ready => "ready"@,
            }),
    {
        match self {
            Health::Starting => "starting",
            Health::Ready => "ready",
        }
    }
}

/// What the root route answers with.
pub fn root() -> (greeting: &'static str)
    ensures
        greeting@ == "Hello, World!"@,
{
    "Hello, World!"
}

/// The status that tells a caller of `error`: a worker that is not ready, or
/// never will be, makes the service unavailable; a vanished worker is a
/// fault of the server.
pub fn error_status(error: &RunnerError) -> (status: u16)
    ensures
        status == (match error {
            RunnerError::NotReady => STATUS_SERVICE_UNAVAILABLE,
            RunnerError::SetupFailed(_) => STATUS_SERVICE_UNAVAILABLE,
            RunnerError::WorkerUnavailable => STATUS_INTERNAL_SERVER_ERROR,
        }),
{
    match error {
        RunnerError::NotReady => STATUS_SERVICE_UNAVAILABLE,
        RunnerError::SetupFailed(_) => STATUS_SERVICE_UNAVAILABLE,
        RunnerError::WorkerUnavailable => STATUS_INTERNAL_SERVER_ERROR,
    }
}

/// The status of the predict route's answer. A call that came back with a
/// response is answered with it, whether the prediction succeeded or
/// failed; a call that did not is answered with the status of its error.
pub fn predict(outcome: &Result<PredictionResponse, RunnerError>) -> (status: u16)
    ensures
        status == (match outcome {
            Ok(_) => STATUS_OK,
            Err(RunnerError::NotReady) => STATUS_SERVICE_UNAVAILABLE,
            Err(RunnerError::SetupFailed(_)) => STATUS_SERVICE_UNAVAILABLE,
            Err(RunnerError::WorkerUnavailable) => STATUS_INTERNAL_SERVER_ERROR,
        }),
{
    match outcome {
        Ok(_) => STATUS_OK,
        Err(error) => error_status(error),
    }
}

/// The answer to a request that failed in a layer around the routes: a
/// timeout is reported as such, anything else as an internal error with its
/// text.
pub fn handle_error(timed_out: bool, error: &str) -> (answer: (u16, String))
    ensures
        timed_out ==> answer.0 == STATUS_REQUEST_TIMEOUT && answer.1@
            == "Request took too long"@,
        !timed_out ==> answer.0 == STATUS_INTERNAL_SERVER_ERROR && answer.1@
            == "Unhandled internal error: "@ + error@,
{
    if timed_out {
        (STATUS_REQUEST_TIMEOUT, String::from_str("Request took too long"))
    } else {
        (
            STATUS_INTERNAL_SERVER_ERROR,
            String::from_str("Unhandled internal error: ").concat(error),
        )
    }
}

/// Which of the two long-running parts of the daemon ended first.
#[derive(Clone, Copy, Debug, PartialEq, Eq, Structural)]
pub enum Exit {
    /// The HTTP front.
    Server,
    /// The worker loop.
    Runner,
}

/// Why the daemon stops when one of its parts has ended: neither is meant
/// to.
pub fn exit_error(exit: Exit) -> (reason: &'static str)
    ensures
        reason@ == (match exit {
            Exit::Server => "Server exited unexpectedly"@,
            Exit::Runner => "Runner exited unexpectedly"@,
        }),
{
    match exit {
        Exit::Server => "Server exited unexpectedly",
        Exit::Runner => "Runner exited unexpectedly",
    }
}

/// The exit code of the process: zero after a normal shutdown, one after
/// the server has stopped with an error.
pub fn exit_code(stopped: &Result<(), String>) -> (code: i32)
    ensures
        code == 0 <==> stopped is Ok,
        code == 0 || code == 1,
{
    match stopped {
        Ok(_) => 0,
        Err(_) => 1,
    }
}

} // verus!
