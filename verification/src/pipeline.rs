//! The pipeline client: many callers, one ordered stream of requests, one
//! ordered stream of responses, and no identifier on the wire.
//!
//! Responses are matched to callers by position: the client keeps its
//! callers in the order in which their requests were sent, and hands each
//! response that arrives to the caller that has waited longest. This is
//! right exactly as long as the other side answers every request once and in
//! order, which is what the runner is proved to do.

use crate::connection::{ChannelTransport, Inbound, TransportModel};
use crate::error::RunnerError;
use crate::readiness::{ReadinessModel, ReadinessState, ReadyPoll};
use crate::runner::{PredictionRequest, PredictionResponse};
use std::collections::VecDeque;
use vstd::prelude::*;
use vstd::string::*;

verus! {

/// The client's end of the connection: it sends requests and receives
/// responses.
pub type ClientTransport = ChannelTransport<PredictionResponse, PredictionRequest>;

/// Where the client stands.
#[derive(Debug, Clone)]
pub enum ClientState {
    /// It has not seen the worker ready yet.
    AwaitingReadiness,
    /// It has seen the worker ready, and serves calls.
    Serving,
    /// It has seen the worker's setup fail, for this reason. Permanent.
    SetupFailed(String),
    /// The connection to the worker is gone. Permanent.
    Closed,
}

/// A `ClientState` as a mathematical value.
pub enum ClientPhase {
    AwaitingReadiness,
    Serving,
    SetupFailed(Seq<char>),
    Closed,
}

impl View for ClientState {
    type V = ClientPhase;

    open spec fn view(&self) -> ClientPhase {
        match self {
            ClientState::AwaitingReadiness => ClientPhase::AwaitingReadiness,
            ClientState::Serving => ClientPhase::Serving,
            ClientState::SetupFailed(reason) => ClientPhase::SetupFailed(reason@),
            ClientState::Closed => ClientPhase::Closed,
        }
    }
}

impl ClientPhase {
    /// The phase after the client has looked at the readiness gate. Only a
    /// client that awaits readiness is moved by what it sees.
    pub open spec fn observe(self, readiness: ReadinessModel) -> Self {
        match self {
            ClientPhase::AwaitingReadiness => match readiness {
                ReadinessModel::Starting => ClientPhase::AwaitingReadiness,
                ReadinessModel::Ready => ClientPhase::Serving,
                ReadinessModel::SetupFailed(reason) => ClientPhase::SetupFailed(reason),
            },
            _ => self,
        }
    }

    /// The phase after the client has found the connection gone. A setup
    /// failure, once seen, stays what callers are told.
    pub open spec fn disconnect(self) -> Self {
        match self {
            ClientPhase::SetupFailed(_) => self,
            _ => ClientPhase::Closed,
        }
    }

    /// Whether the client has failed for good.
    pub open spec fn is_failed(self) -> bool {
        self is SetupFailed || self is Closed
    }

    /// Whether `error` is the error that callers are told in this phase.
    pub open spec fn fails_with(self, error: RunnerError) -> bool {
        match self {
            ClientPhase::SetupFailed(reason) => error matches RunnerError::SetupFailed(given)
                && given@ == reason,
            ClientPhase::Closed => error is WorkerUnavailable,
            _ => false,
        }
    }
}

/// The client as a mathematical value.
pub struct ClientModel<C> {
    /// Where the client stands.
    pub phase: ClientPhase,
    /// The callers whose requests were sent and not answered yet, in the
    /// order in which the requests were sent.
    pub outstanding: Seq<C>,
}

/// The client's end of the connection as a mathematical value.
pub type WireModel = TransportModel<PredictionResponse, PredictionRequest>;

impl<C> ClientModel<C> {
    /// Whether `after`, `sent` and `issued` are what becomes of this client
    /// and of its end `wire` of the connection, and what the caller is told,
    /// when `caller` issues a call with `request` and is ready to wait.
    ///
    /// A client that has failed for good turns the call away with its
    /// error. A client that finds the connection closed turns the call away
    /// with `WorkerUnavailable` and is closed from then on. Otherwise the
    /// request is sent, behind the requests sent before, and the caller is
    /// kept, behind the callers kept before.
    pub open spec fn issues(
        self,
        wire: WireModel,
        request: PredictionRequest,
        caller: C,
        after: Self,
        sent: WireModel,
        issued: Result<(), Rejected<C>>,
    ) -> bool {
        if self.phase.is_failed() {
            &&& issued matches Err(rejected)
            &&& rejected.caller == caller
            &&& self.phase.fails_with(rejected.error)
            &&& after == self
            &&& sent == wire
        } else if wire.closed {
            &&& issued matches Err(rejected)
            &&& rejected.caller == caller
            &&& rejected.error is WorkerUnavailable
            &&& after == (ClientModel { phase: ClientPhase::Closed, ..self })
            &&& sent == wire
        } else {
            &&& issued is Ok
            &&& after == (ClientModel { outstanding: self.outstanding.push(caller), ..self })
            &&& sent == wire.send(request)
        }
    }
}

/// A response on its way to the caller that it belongs to.
pub struct Delivery<C> {
    pub caller: C,
    pub response: PredictionResponse,
}

/// A call that was turned away: the caller, and why.
pub struct Rejected<C> {
    pub caller: C,
    pub error: RunnerError,
}

/// The client. `C` is whatever stands for a caller: the client keeps it
/// while the call is outstanding and hands it back with the response.
pub struct PipelineClient<C> {
    state: ClientState,
    outstanding: VecDeque<C>,
}

impl<C> View for PipelineClient<C> {
    type V = ClientModel<C>;

    closed spec fn view(&self) -> ClientModel<C> {
        ClientModel { phase: self.state@, outstanding: self.outstanding@ }
    }
}

/// How many of the responses that have arrived can be matched: each needs a
/// caller that is still outstanding.
pub open spec fn matched(arrived: nat, outstanding: nat) -> nat {
    if arrived <= outstanding {
        arrived
    } else {
        outstanding
    }
}

impl<C> PipelineClient<C> {
    /// A client without outstanding calls that has not seen the worker ready
    /// yet.
    pub fn new() -> (client: Self)
        ensures
            client@ == (ClientModel::<C> {
                phase: ClientPhase::AwaitingReadiness,
                outstanding: Seq::empty(),
            }),
    {
        PipelineClient { state: ClientState::AwaitingReadiness, outstanding: VecDeque::new() }
    }

    /// Looks at the readiness gate, and says whether the client serves
    /// calls: not yet while the worker starts, yes once it has been seen
    /// ready, and never again once its setup has been seen to fail or the
    /// connection has been found gone.
    pub fn poll_ready(&mut self, readiness: &ReadinessState) -> (seen: ReadyPoll)
        ensures
            final(self)@.phase == old(self)@.phase.observe(readiness@),
            final(self)@.outstanding == old(self)@.outstanding,
            match final(self)@.phase {
                ClientPhase::AwaitingReadiness => seen is Pending,
                ClientPhase::Serving => seen is Ready,
                _ => seen matches ReadyPoll::Failed(error) && final(self)@.phase.fails_with(
                    error,
                ),
            },
    {
        if let ClientState::AwaitingReadiness = self.state {
            match readiness {
                ReadinessState::Starting => {},
                ReadinessState::Ready => {
                    self.state = ClientState::Serving;
                },
                ReadinessState::SetupFailed(reason) => {
                    self.state = ClientState::SetupFailed(reason.clone());
                },
            }
        }
        match &self.state {
            ClientState::AwaitingReadiness => ReadyPoll::Pending,
            ClientState::Serving => ReadyPoll::Ready,
            ClientState::SetupFailed(reason) => ReadyPoll::Failed(
                RunnerError::SetupFailed(reason.clone()),
            ),
            ClientState::Closed => ReadyPoll::Failed(RunnerError::WorkerUnavailable),
        }
    }

    /// The error that every call gets from now on, if the client has failed
    /// for good.
    pub fn error(&self) -> (error: Option<RunnerError>)
        ensures
            match error {
                Some(error) => self@.phase.fails_with(error),
                None => !self@.phase.is_failed(),
            },
    {
        match &self.state {
            ClientState::SetupFailed(reason) => Some(RunnerError::SetupFailed(reason.clone())),
            ClientState::Closed => Some(RunnerError::WorkerUnavailable),
            _ => None,
        }
    }

    /// Issues a call, for a caller that is ready to wait for the worker.
    ///
    /// A client that has failed for good turns the call away with its
    /// error, and nothing changes. A client that finds the connection closed
    /// turns the call away with `WorkerUnavailable` and is closed from then
    /// on. Otherwise the request is sent, behind the requests sent before,
    /// and the caller is kept, behind the callers kept before.
    pub fn call(
        &mut self,
        transport: &mut ClientTransport,
        request: PredictionRequest,
        caller: C,
    ) -> (issued: Result<(), Rejected<C>>)
        ensures
            old(self)@.issues(
                old(transport)@,
                request,
                caller,
                final(self)@,
                final(transport)@,
                issued,
            ),
    {
        match self.error() {
            Some(error) => {
                return Err(Rejected { caller, error });
            },
            None => {},
        }
        match transport.start_send(request) {
            Ok(_) => {
                self.outstanding.push_back(caller);
                Ok(())
            },
            Err(_) => {
                self.state = ClientState::Closed;
                Err(Rejected { caller, error: RunnerError::WorkerUnavailable })
            },
        }
    }

    /// Issues a call, for a caller that will not wait for the worker to
    /// start: a client that has not seen the worker ready turns the call
    /// away at once with `NotReady`, and nothing changes. In every other
    /// phase this is `call`.
    pub fn try_call(
        &mut self,
        transport: &mut ClientTransport,
        request: PredictionRequest,
        caller: C,
    ) -> (issued: Result<(), Rejected<C>>)
        ensures
            if old(self)@.phase is AwaitingReadiness {
                &&& issued matches Err(rejected)
                &&& rejected.caller == caller
                &&& rejected.error is NotReady
                &&& final(self)@ == old(self)@
                &&& final(transport)@ == old(transport)@
            } else {
                old(self)@.issues(
                    old(transport)@,
                    request,
                    caller,
                    final(self)@,
                    final(transport)@,
                    issued,
                )
            },
    {
        if let ClientState::AwaitingReadiness = self.state {
            return Err(Rejected { caller, error: RunnerError::NotReady });
        }
        self.call(transport, request, caller)
    }

    /// Receives the responses that have arrived, and matches each to the
    /// caller whose turn it is.
    ///
    /// The first response goes to the caller that has waited longest, the
    /// second to the next, and so on: deliveries come in the order of the
    /// calls, and no caller is skipped. A response that arrives when no
    /// caller is outstanding cannot be matched: it is dropped, and the
    /// client is closed rather than risk a wrong match later. A client that
    /// finds the connection closed, with nothing left to receive, is closed
    /// too.
    pub fn poll_responses(&mut self, transport: &mut ClientTransport) -> (delivered: Vec<
        Delivery<C>,
    >)
        ensures
            ({
                let arrived = old(transport)@.inbox;
                let callers = old(self)@.outstanding;
                let n = matched(arrived.len(), callers.len()) as int;
                &&& delivered@.len() == n
                &&& forall|i: int|
                    0 <= i < n ==> (#[trigger] delivered@[i]).caller == callers[i]
                        && delivered@[i].response == arrived[i]
                &&& final(self)@.outstanding == callers.skip(n)
                &&& final(transport)@.outbox == old(transport)@.outbox
                &&& final(transport)@.closed == old(transport)@.closed
                &&& if arrived.len() > callers.len() {
                    &&& final(transport)@.inbox == arrived.skip(n + 1)
                    &&& final(self)@.phase == old(self)@.phase.disconnect()
                } else {
                    &&& final(transport)@.inbox == Seq::<PredictionResponse>::empty()
                    &&& final(self)@.phase == if old(transport)@.closed {
                        old(self)@.phase.disconnect()
                    } else {
                        old(self)@.phase
                    }
                }
            }),
    {
        let ghost arrived = transport@.inbox;
        let ghost callers = self@.outstanding;
        let mut delivered: Vec<Delivery<C>> = Vec::new();
        let mut gone = false;
        loop
            invariant_except_break
                !gone,
                transport@.inbox == arrived.skip(delivered@.len() as int),
            invariant
                arrived == old(transport)@.inbox,
                callers == old(self)@.outstanding,
                delivered@.len() <= arrived.len(),
                delivered@.len() <= callers.len(),
                transport@.outbox == old(transport)@.outbox,
                transport@.closed == old(transport)@.closed,
                self@.outstanding == callers.skip(delivered@.len() as int),
                self@.phase == old(self)@.phase,
                forall|i: int|
                    0 <= i < delivered@.len() ==> (#[trigger] delivered@[i]).caller == callers[i]
                        && delivered@[i].response == arrived[i],
            ensures
                delivered@.len() == matched(arrived.len(), callers.len()),
                forall|i: int|
                    0 <= i < delivered@.len() ==> (#[trigger] delivered@[i]).caller == callers[i]
                        && delivered@[i].response == arrived[i],
                self@.outstanding == callers.skip(delivered@.len() as int),
                self@.phase == old(self)@.phase,
                transport@.outbox == old(transport)@.outbox,
                transport@.closed == old(transport)@.closed,
                if arrived.len() > callers.len() {
                    gone && transport@.inbox == arrived.skip(delivered@.len() as int + 1)
                } else {
                    transport@.inbox == Seq::<PredictionResponse>::empty() && gone == old(
                        transport,
                    )@.closed
                },
            decreases arrived.len() - delivered@.len(),
        {
            match transport.poll_next() {
                Inbound::Item(response) => match self.outstanding.pop_front() {
                    Some(caller) => {
                        delivered.push(Delivery { caller, response });
                    },
                    None => {
                        gone = true;
                        break ;
                    },
                },
                Inbound::Closed => {
                    gone = true;
                    break ;
                },
                Inbound::Pending => {
                    break ;
                },
            }
        }
        if gone {
            self.disconnect();
        }
        delivered
    }

    /// Closes the client, unless it has seen the setup fail: that failure
    /// stays what callers are told.
    fn disconnect(&mut self)
        ensures
            final(self)@ == (ClientModel {
                phase: old(self)@.phase.disconnect(),
                ..old(self)@
            }),
    {
        match self.state {
            ClientState::SetupFailed(_) => {},
            _ => {
                self.state = ClientState::Closed;
            },
        }
    }

    /// Gives up the outstanding calls of a client that has failed for good:
    /// hands back their callers, in the order of the calls, so that each can
    /// be told the client's error. A client that has not failed keeps its
    /// callers.
    pub fn abort(&mut self) -> (callers: Vec<C>)
        ensures
            final(self)@.phase == old(self)@.phase,
            if old(self)@.phase.is_failed() {
                &&& callers@ == old(self)@.outstanding
                &&& final(self)@.outstanding == Seq::<C>::empty()
            } else {
                &&& callers@.len() == 0
                &&& final(self)@.outstanding == old(self)@.outstanding
            },
    {
        let mut callers: Vec<C> = Vec::new();
        match self.state {
            ClientState::SetupFailed(_) | ClientState::Closed => {},
            _ => {
                return callers;
            },
        }
        loop
            invariant
                self@.phase == old(self)@.phase,
                callers@ + self@.outstanding == old(self)@.outstanding,
            ensures
                self@.phase == old(self)@.phase,
                callers@ == old(self)@.outstanding,
                self@.outstanding == Seq::<C>::empty(),
            decreases self@.outstanding.len(),
        {
            match self.outstanding.pop_front() {
                Some(caller) => {
                    callers.push(caller);
                },
                None => {
                    break ;
                },
            }
        }
        callers
    }

    /// Where the client stands.
    pub fn state(&self) -> (state: &ClientState)
        ensures
            state@ == self@.phase,
    {
        &self.state
    }

    /// How many calls are outstanding.
    pub fn outstanding(&self) -> (outstanding: usize)
        ensures
            outstanding == self@.outstanding.len(),
    {
        self.outstanding.len()
    }
}

} // verus!
