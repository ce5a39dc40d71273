//! The verified core of a prediction-serving daemon.
//!
//! A single stateful worker sits behind a bounded dispatch queue. Callers
//! reach it through a duplex transport and a pipelined client that matches
//! responses to callers by position alone. Every component here is a plain
//! state machine: it takes events as values and hands back the next state and
//! what to do, so that an asynchronous shell can drive it and Verus can prove
//! what it does.
//!
//! - `readiness`: the worker's setup as callers see it, set once.
//! - `queue`: the bounded queue with the callers that it makes wait.
//! - `runner`: requests and responses, the built-in worker, and the loop
//!   that serves one call at a time.
//! - `connection`: one end of the duplex transport.
//! - `pipeline`: the client that matches responses to callers by position.
//! - `daemon`: all of these wired together, and the proof that every caller
//!   gets the response to its own request.
//! - `server`: what the HTTP front decides.
//! - `error`: the failures that callers can see.
//! - `json`: the boundary to `serde_json`, which is trusted.

pub mod connection;
pub mod daemon;
pub mod error;
pub mod json;
pub mod pipeline;
pub mod queue;
pub mod readiness;
pub mod runner;
pub mod server;
