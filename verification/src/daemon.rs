//! The daemon behind the front, wired together: the pipeline client, the two
//! ends of the duplex transport, and the runner that owns the worker.
//!
//! A call travels from the client over the transport to the runner, waits
//! in the dispatch queue, is served by the worker, and its response travels
//! back the same way. No part of this path knows which caller a message
//! belongs to; the order alone says it. What is proved at the end of this
//! file is that the order is enough: every caller gets the response to its
//! own request.

use crate::connection::{ChannelTransport, Inbound, TransportModel};
use crate::error::RunnerError;
use crate::pipeline::{
    ClientModel, ClientPhase, ClientTransport, Delivery, PipelineClient, Rejected,
};
use crate::queue::QueueModel;
use crate::readiness::{report_view, ReadinessModel, ReadyPoll};
use crate::runner::{
    lemma_builtin_worker, predict, PendingCall, PredictionRequest, PredictionResponse, Runner,
    RunnerModel,
};
use crate::server::Health;
use serde_json::Value;
use vstd::prelude::*;

verus! {

/// The runner's end of the connection: it receives requests and sends
/// responses.
pub type WorkerTransport = ChannelTransport<PredictionRequest, PredictionResponse>;

/// The daemon as a mathematical value.
pub struct DaemonModel<C> {
    /// The runner. Its calls carry no destination: their order is their
    /// address.
    pub runner: RunnerModel<()>,
    /// The runner's end of the connection.
    pub worker_side: TransportModel<PredictionRequest, PredictionResponse>,
    /// The client's end of the connection.
    pub client_side: TransportModel<PredictionResponse, PredictionRequest>,
    /// The client.
    pub client: ClientModel<C>,
}

impl<C> DaemonModel<C> {
    /// The daemon before anything has happened: setup has not reported, no
    /// call has been issued, and the connection is open and empty.
    pub open spec fn fresh(code: Seq<char>, concurrency: nat) -> Self {
        DaemonModel {
            runner: RunnerModel {
                code,
                readiness: ReadinessModel::Starting,
                queue: QueueModel::empty(concurrency),
                current: None,
            },
            worker_side: TransportModel::idle(),
            client_side: TransportModel::idle(),
            client: ClientModel {
                phase: ClientPhase::AwaitingReadiness,
                outstanding: Seq::empty(),
            },
        }
    }

    /// The requests that have been sent and not served yet, oldest first.
    pub open spec fn waiting(self) -> Seq<PredictionRequest> {
        self.worker_side.inbox + self.client_side.outbox
    }

    /// Whether the worker serves: its setup has succeeded, and its loop
    /// runs.
    pub open spec fn is_serving(self) -> bool {
        self.runner.readiness is Ready && !self.runner.queue.closed
    }

    /// Whether the worker is still being set up.
    pub open spec fn is_starting(self) -> bool {
        self.runner.readiness is Starting && !self.runner.queue.closed
    }

    /// What holds of the daemon between any two of its operations.
    ///
    /// Every outstanding caller has exactly one request on its way, and
    /// nothing else is in flight: no call is half served, no response lies
    /// around. A closure of the connection has a cause on the runner's
    /// side, and what the client believes of the worker is true of it.
    pub open spec fn wf(self) -> bool {
        &&& self.runner.wf()
        &&& self.runner.queue.pending().len() == 0
        &&& self.runner.current is None
        &&& self.worker_side.outbox.len() == 0
        &&& self.client_side.inbox.len() == 0
        &&& self.client.outstanding.len() == self.waiting().len()
        &&& self.client_side.closed ==> self.worker_side.closed
        &&& self.worker_side.closed ==> !self.is_serving() && !self.is_starting()
        &&& self.client.phase is Serving ==> self.runner.readiness is Ready
        &&& self.client.phase matches ClientPhase::SetupFailed(reason)
            ==> self.runner.readiness == ReadinessModel::SetupFailed(reason)
        &&& self.client.phase is Closed ==> self.client_side.closed
    }

    /// The phase that the client is in once it has looked at the worker's
    /// readiness.
    pub open spec fn seen_phase(self) -> ClientPhase {
        self.client.phase.observe(self.runner.readiness)
    }

    /// The daemon after a caller that is ready to wait has issued a call.
    pub open spec fn call(self, request: PredictionRequest, caller: C) -> Self {
        if self.seen_phase().is_failed() {
            DaemonModel { client: ClientModel { phase: self.seen_phase(), ..self.client }, ..self }
        } else if self.client_side.closed {
            DaemonModel {
                client: ClientModel { phase: ClientPhase::Closed, ..self.client },
                ..self
            }
        } else {
            DaemonModel {
                client: ClientModel {
                    phase: self.seen_phase(),
                    outstanding: self.client.outstanding.push(caller),
                },
                client_side: self.client_side.send(request),
                ..self
            }
        }
    }

    /// Whether a call that is issued now is taken.
    pub open spec fn accepts(self) -> bool {
        !self.seen_phase().is_failed() && !self.client_side.closed
    }

    /// Whether `after`, `delivered`, `failed` and `error` are what becomes of
    /// this daemon in one turn and what the turn brings, but for what the
    /// worker puts into the responses.
    ///
    /// While the worker serves, a turn answers every outstanding call and
    /// fails none. While setup runs, a turn answers nothing and loses
    /// nothing: the calls wait, in their order. Once the setup has failed or
    /// the loop has ended, a turn fails every outstanding call, in the order
    /// of the calls, and says with which error: the one that the client
    /// gives from then on.
    pub open spec fn turns_into(
        self,
        after: Self,
        delivered: Seq<Delivery<C>>,
        failed: Seq<C>,
        error: Option<RunnerError>,
    ) -> bool {
        &&& after.runner == self.runner
        &&& if self.is_serving() {
            &&& delivered.len() == self.client.outstanding.len()
            &&& failed.len() == 0
            &&& error is None
            &&& after.client.phase is Serving
            &&& after.client.outstanding.len() == 0
        } else if self.is_starting() {
            &&& delivered.len() == 0
            &&& failed.len() == 0
            &&& error is None
            &&& after.client == self.client
            &&& after.waiting() == self.waiting()
        } else {
            &&& delivered.len() == 0
            &&& failed == self.client.outstanding
            &&& error matches Some(told)
            &&& after.client.phase.fails_with(told)
            &&& after.client.phase == self.seen_phase().disconnect()
            &&& after.client.outstanding.len() == 0
        }
    }

    /// Whether `delivered` answers every outstanding call with `worker`: one
    /// delivery for each, in the order of the calls, each to the caller of
    /// its call and with a response of the worker to the request of its
    /// call.
    pub open spec fn answered_with<W: Fn(Value) -> Result<Value, String>>(
        self,
        worker: W,
        delivered: Seq<Delivery<C>>,
    ) -> bool {
        &&& delivered.len() == self.client.outstanding.len()
        &&& forall|i: int|
            0 <= i < delivered.len() ==> (#[trigger] delivered[i]).caller
                == self.client.outstanding[i] && delivered[i].response.given_by(
                worker,
                self.waiting()[i],
            )
    }

    /// Whether `delivered` answers every outstanding call: one delivery for
    /// each, in the order of the calls, each to the caller of its call and
    /// with the built-in worker's response to the request of its call.
    pub open spec fn answered_by(self, delivered: Seq<Delivery<C>>) -> bool {
        &&& delivered.len() == self.client.outstanding.len()
        &&& forall|i: int|
            0 <= i < delivered.len() ==> (#[trigger] delivered[i]).caller
                == self.client.outstanding[i] && delivered[i].response.responds_to(
                self.waiting()[i],
            )
    }
}

/// What one turn of the daemon brings.
pub struct Turn<C> {
    /// The responses that have come back, each with the caller that it is
    /// for, in the order of the calls.
    pub delivered: Vec<Delivery<C>>,
    /// The callers whose calls have failed for good, in the order of the
    /// calls.
    pub failed: Vec<C>,
    /// The error that the failed callers, and all later ones, are told.
    pub error: Option<RunnerError>,
}

/// The daemon. `C` is whatever stands for a caller.
pub struct Daemon<C> {
    runner: Runner<()>,
    worker_side: WorkerTransport,
    client_side: ClientTransport,
    client: PipelineClient<C>,
}

impl<C> View for Daemon<C> {
    type V = DaemonModel<C>;

    closed spec fn view(&self) -> DaemonModel<C> {
        DaemonModel {
            runner: self.runner@,
            worker_side: self.worker_side@,
            client_side: self.client_side@,
            client: self.client@,
        }
    }
}

/// Hands every request that has arrived to the runner, in the order of
/// arrival. The runner's queue is empty before, so that afterwards the
/// calls that wait in it are these requests, one for one.
fn feed(runner: &mut Runner<()>, transport: &mut WorkerTransport)
    requires
        old(runner)@.wf(),
        old(runner)@.readiness is Ready,
        !old(runner)@.queue.closed,
        old(runner)@.queue.pending().len() == 0,
    ensures
        final(runner)@.wf(),
        final(runner)@.code == old(runner)@.code,
        final(runner)@.readiness == old(runner)@.readiness,
        final(runner)@.current == old(runner)@.current,
        final(runner)@.queue.capacity == old(runner)@.queue.capacity,
        !final(runner)@.queue.closed,
        final(runner)@.queue.pending().len() == old(transport)@.inbox.len(),
        forall|i: int|
            0 <= i < old(transport)@.inbox.len() ==> (
            #[trigger] final(runner)@.queue.pending()[i]).request == old(transport)@.inbox[i],
        final(transport)@ == (TransportModel { inbox: Seq::empty(), ..old(transport)@ }),
{
    let ghost arrived = transport@.inbox;
    loop
        invariant
            arrived == old(transport)@.inbox,
            runner@.wf(),
            runner@.code == old(runner)@.code,
            runner@.readiness == old(runner)@.readiness,
            runner@.readiness is Ready,
            runner@.current == old(runner)@.current,
            runner@.queue.capacity == old(runner)@.queue.capacity,
            !runner@.queue.closed,
            transport@.outbox == old(transport)@.outbox,
            transport@.closed == old(transport)@.closed,
            runner@.queue.pending().len() <= arrived.len(),
            transport@.inbox == arrived.skip(runner@.queue.pending().len() as int),
            forall|i: int|
                0 <= i < runner@.queue.pending().len() ==> (
                #[trigger] runner@.queue.pending()[i]).request == arrived[i],
        ensures
            runner@.queue.pending().len() == arrived.len(),
            transport@.inbox == Seq::<PredictionRequest>::empty(),
        decreases arrived.len() - runner@.queue.pending().len(),
    {
        let ghost queue = runner@.queue;
        match transport.poll_next() {
            Inbound::Item(request) => {
                proof {
                    queue.lemma_enqueue_appends(PendingCall { request, destination: () });
                }
                let _ = runner.call(request, ());
            },
            _ => {
                break ;
            },
        }
    }
}

/// Serves every call that waits, and sends each response as soon as it is
/// there.
fn serve<W: Fn(Value) -> Result<Value, String>>(
    runner: &mut Runner<()>,
    transport: &mut WorkerTransport,
    worker: &W,
)
    requires
        forall|input: Value| call_requires(*worker, (input,)),
        old(runner)@.wf(),
        old(runner)@.readiness is Ready,
        old(runner)@.current is None,
        old(transport)@.outbox.len() == 0,
        !old(transport)@.closed,
    ensures
        final(runner)@.wf(),
        final(runner)@ == old(runner)@.drained(),
        final(transport)@.inbox == old(transport)@.inbox,
        !final(transport)@.closed,
        final(transport)@.outbox.len() == old(runner)@.queue.pending().len(),
        forall|i: int|
            0 <= i < final(transport)@.outbox.len() ==> (
            #[trigger] final(transport)@.outbox[i]).given_by(
                *worker,
                old(runner)@.queue.pending()[i].request,
            ),
{
    let ghost calls = runner@.queue.pending();
    loop
        invariant
            forall|input: Value| call_requires(*worker, (input,)),
            calls == old(runner)@.queue.pending(),
            runner@.wf(),
            runner@.code == old(runner)@.code,
            runner@.readiness == old(runner)@.readiness,
            runner@.readiness is Ready,
            runner@.current is None,
            old(runner)@.current is None,
            runner@.queue.capacity == old(runner)@.queue.capacity,
            runner@.queue.closed == old(runner)@.queue.closed,
            transport@.inbox == old(transport)@.inbox,
            !transport@.closed,
            transport@.outbox.len() <= calls.len(),
            runner@.queue.pending() == calls.skip(transport@.outbox.len() as int),
            forall|i: int|
                0 <= i < transport@.outbox.len() ==> (#[trigger] transport@.outbox[i]).given_by(
                    *worker,
                    calls[i].request,
                ),
        ensures
            runner@ == old(runner)@.drained(),
            transport@.outbox.len() == calls.len(),
        decreases calls.len() - transport@.outbox.len(),
    {
        proof {
            runner@.queue.lemma_dequeue_takes_oldest();
        }
        match runner.serve_next_with(worker) {
            Some(fulfilment) => {
                let _ = transport.start_send(fulfilment.response);
            },
            None => {
                proof {
                    assert(runner@.queue.suspended =~= Seq::empty());
                }
                break ;
            },
        }
    }
}

/// Drops every request that has arrived: nobody is left to serve it.
fn discard(transport: &mut WorkerTransport)
    ensures
        final(transport)@ == (TransportModel { inbox: Seq::empty(), ..old(transport)@ }),
{
    loop
        invariant
            transport@.outbox == old(transport)@.outbox,
            transport@.closed == old(transport)@.closed,
        ensures
            transport@.inbox == Seq::<PredictionRequest>::empty(),
        decreases transport@.inbox.len(),
    {
        match transport.poll_next() {
            Inbound::Item(_) => {},
            _ => {
                break ;
            },
        }
    }
}

impl<C> Daemon<C> {
    /// A daemon for a worker made from `code`, with a dispatch queue of
    /// `concurrency` slots. Setup has not reported yet.
    ///
    /// A queue without any slot could never take a call, so `concurrency`
    /// must be at least one.
    pub fn new(code: String, concurrency: usize) -> (daemon: Self)
        requires
            concurrency > 0,
        ensures
            daemon@ == DaemonModel::<C>::fresh(code@, concurrency as nat),
            daemon@.wf(),
    {
        let daemon = Daemon {
            runner: Runner::new(code, concurrency),
            worker_side: ChannelTransport::new(),
            client_side: ChannelTransport::new(),
            client: PipelineClient::new(),
        };
        daemon
    }

    /// Takes the report of the worker's setup. Only the first report counts:
    /// a success lets the worker serve, a failure ends its loop for good.
    /// What callers are told of it, they are told at their next call or at
    /// the next turn.
    pub fn finish_setup(&mut self, report: Result<(), String>)
        requires
            old(self)@.wf(),
        ensures
            final(self)@.wf(),
            final(self)@.runner.readiness == old(self)@.runner.readiness.resolve(
                report_view(report),
            ),
            final(self)@.runner.queue.closed == (old(self)@.runner.queue.closed || (old(
                self,
            )@.runner.readiness is Starting && report is Err)),
            final(self)@.runner.code == old(self)@.runner.code,
            final(self)@.worker_side == old(self)@.worker_side,
            final(self)@.client_side == old(self)@.client_side,
            final(self)@.client == old(self)@.client,
    {
        let _ = self.runner.finish_setup(report);
    }

    /// Ends the worker's loop. Every call that is still on its way, and
    /// every later one, fails with `WorkerUnavailable`, unless the setup had
    /// failed: then that is what callers are told.
    pub fn shutdown(&mut self)
        requires
            old(self)@.wf(),
        ensures
            final(self)@.wf(),
            final(self)@.runner.queue.closed,
            final(self)@.runner.readiness == old(self)@.runner.readiness,
            final(self)@.runner.code == old(self)@.runner.code,
            final(self)@.worker_side == (TransportModel {
                closed: true,
                ..old(self)@.worker_side
            }),
            final(self)@.client_side == old(self)@.client_side,
            final(self)@.client == old(self)@.client,
    {
        let _ = self.runner.shutdown();
        self.worker_side.close();
    }

    /// What the health route has to report: ready if the worker's setup has
    /// succeeded, and in no other case.
    pub fn health(&self) -> (health: Health)
        ensures
            health == Health::Ready <==> self@.runner.readiness is Ready,
    {
        Health::of(self.runner.readiness())
    }

    /// How many calls are outstanding.
    pub fn outstanding(&self) -> (outstanding: usize)
        ensures
            outstanding == self@.client.outstanding.len(),
    {
        self.client.outstanding()
    }

    /// Issues a call, for a caller that is ready to wait.
    ///
    /// If the worker's setup has failed, or the connection to the worker is
    /// gone, the call is turned away with that error. Otherwise it is taken:
    /// the request is sent behind all requests sent before, and the caller
    /// is outstanding until a turn brings its response or its failure. A
    /// call that is issued while setup runs waits for it.
    pub fn call(&mut self, request: PredictionRequest, caller: C) -> (issued: Result<
        (),
        Rejected<C>,
    >)
        requires
            old(self)@.wf(),
        ensures
            final(self)@.wf(),
            final(self)@ == old(self)@.call(request, caller),
            match issued {
                Ok(_) => old(self)@.accepts(),
                Err(rejected) => {
                    &&& !old(self)@.accepts()
                    &&& rejected.caller == caller
                    &&& final(self)@.client.phase.fails_with(rejected.error)
                },
            },
    {
        let _ = self.client.poll_ready(self.runner.readiness());
        let issued = self.client.call(&mut self.client_side, request, caller);
        issued
    }

    /// Issues a call, for a caller that will not wait for setup: while the
    /// client has not seen the worker ready, the call is turned away at once
    /// with `NotReady`. Otherwise this is `call`.
    pub fn try_call(&mut self, request: PredictionRequest, caller: C) -> (issued: Result<
        (),
        Rejected<C>,
    >)
        requires
            old(self)@.wf(),
        ensures
            final(self)@.wf(),
            if old(self)@.seen_phase() is AwaitingReadiness {
                &&& issued matches Err(rejected)
                &&& rejected.caller == caller
                &&& rejected.error is NotReady
                &&& final(self)@ == old(self)@
            } else {
                &&& final(self)@ == old(self)@.call(request, caller)
                &&& match issued {
                    Ok(_) => old(self)@.accepts(),
                    Err(rejected) => {
                        &&& !old(self)@.accepts()
                        &&& rejected.caller == caller
                        &&& final(self)@.client.phase.fails_with(rejected.error)
                    },
                }
            },
    {
        let _ = self.client.poll_ready(self.runner.readiness());
        let issued = self.client.try_call(&mut self.client_side, request, caller);
        issued
    }

    /// Lets the daemon take one turn: carries the requests to the runner,
    /// lets `worker` serve all that it can, carries the responses back, and
    /// matches them to their callers.
    ///
    /// While the worker serves, a turn answers every outstanding call: the
    /// deliveries come in the order of the calls, each to the caller of its
    /// call, with a response of the worker to the request of its call. In
    /// every other state it answers none, and `turns_into` says what it
    /// does.
    pub fn turn_with<W: Fn(Value) -> Result<Value, String>>(&mut self, worker: &W) -> (turn: Turn<
        C,
    >)
        requires
            old(self)@.wf(),
            forall|input: Value| call_requires(*worker, (input,)),
        ensures
            final(self)@.wf(),
            old(self)@.turns_into(final(self)@, turn.delivered@, turn.failed@, turn.error),
            old(self)@.is_serving() ==> old(self)@.answered_with(*worker, turn.delivered@),
    {
        self.client_side.exchange(&mut self.worker_side);
        match self.runner.poll_ready() {
            ReadyPoll::Ready => {
                feed(&mut self.runner, &mut self.worker_side);
                serve(&mut self.runner, &mut self.worker_side, worker);
            },
            ReadyPoll::Pending => {},
            ReadyPoll::Failed(_) => {
                self.worker_side.close();
                discard(&mut self.worker_side);
            },
        }
        self.worker_side.exchange(&mut self.client_side);
        let _ = self.client.poll_ready(self.runner.readiness());
        let delivered = self.client.poll_responses(&mut self.client_side);
        let failed = self.client.abort();
        let error = self.client.error();
        proof {
            assert(self@.runner.queue.suspended =~= old(self)@.runner.queue.suspended);
            if old(self)@.is_starting() {
                assert(self@.client.outstanding =~= old(self)@.client.outstanding);
            } else if !old(self)@.is_serving() {
                assert(failed@ =~= old(self)@.client.outstanding);
            }
        }
        Turn { delivered, failed, error }
    }

    /// Lets the daemon take one turn with the built-in worker: `turn_with`
    /// for the worker that doubles.
    pub fn turn(&mut self) -> (turn: Turn<C>)
        requires
            old(self)@.wf(),
        ensures
            final(self)@.wf(),
            old(self)@.turns_into(final(self)@, turn.delivered@, turn.failed@, turn.error),
            old(self)@.is_serving() ==> old(self)@.answered_by(turn.delivered@),
    {
        let turn = self.turn_with(&predict);
        proof {
            if old(self)@.is_serving() {
                assert forall|i: int| 0 <= i < turn.delivered@.len() implies (
                #[trigger] turn.delivered@[i]).response.responds_to(old(self)@.waiting()[i]) by {
                    lemma_builtin_worker(turn.delivered@[i].response, old(self)@.waiting()[i]);
                }
            }
        }
        turn
    }
}

/// Position is enough.
///
/// Take a daemon whose worker serves and that owes nothing, and let callers
/// issue any calls in any number. Then whatever answers the calls that are
/// outstanding afterwards, as a turn does, answers each of these calls
/// once, in the order in which they were issued, to the caller that issued
/// it, with a response of the worker to the request that this caller sent.
/// No response is lost, none comes twice, and none goes to another caller,
/// although nothing on the way names a caller.
pub proof fn lemma_position_is_enough<C, W: Fn(Value) -> Result<Value, String>>(
    daemon: DaemonModel<C>,
    worker: W,
    requests: Seq<PredictionRequest>,
    callers: Seq<C>,
    delivered: Seq<Delivery<C>>,
)
    requires
        daemon.wf(),
        daemon.is_serving(),
        daemon.client.outstanding.len() == 0,
        requests.len() == callers.len(),
        call_all(daemon, requests, callers).answered_with(worker, delivered),
    ensures
        delivered.len() == requests.len(),
        forall|i: int|
            0 <= i < requests.len() ==> (#[trigger] delivered[i]).caller == callers[i]
                && delivered[i].response.given_by(worker, requests[i]),
{
    lemma_calls_line_up(daemon, requests, callers);
}

/// The daemon after each of `requests` has been issued in turn, the `i`-th
/// by the `i`-th of `callers`.
pub open spec fn call_all<C>(
    daemon: DaemonModel<C>,
    requests: Seq<PredictionRequest>,
    callers: Seq<C>,
) -> DaemonModel<C>
    decreases requests.len(),
{
    if requests.len() == 0 || callers.len() == 0 {
        daemon
    } else {
        call_all(daemon, requests.drop_last(), callers.drop_last()).call(
            requests.last(),
            callers.last(),
        )
    }
}

/// While the worker serves, every call is taken, and calls line up in the
/// order in which they are issued: the requests on the way to the worker
/// and the callers that the client keeps grow by the same calls, in step.
pub proof fn lemma_calls_line_up<C>(
    daemon: DaemonModel<C>,
    requests: Seq<PredictionRequest>,
    callers: Seq<C>,
)
    requires
        daemon.wf(),
        daemon.is_serving(),
        requests.len() == callers.len(),
    ensures
        call_all(daemon, requests, callers).wf(),
        call_all(daemon, requests, callers).is_serving(),
        call_all(daemon, requests, callers).runner == daemon.runner,
        call_all(daemon, requests, callers).waiting() == daemon.waiting() + requests,
        call_all(daemon, requests, callers).client.outstanding == daemon.client.outstanding
            + callers,
    decreases requests.len(),
{
    if requests.len() > 0 {
        lemma_calls_line_up(daemon, requests.drop_last(), callers.drop_last());
        assert(daemon.waiting() + requests =~= (daemon.waiting() + requests.drop_last()).push(
            requests.last(),
        ));
    }
}

/// A failed setup is what every caller is told.
///
/// Take a daemon whose setup has failed, and whose client had not lost the
/// connection before it could learn of that. Then no call is taken any
/// more, however many are issued: the client turns each away, and the error
/// that it gives is the setup failure with the reason that setup gave.
/// Nothing else changes: what was outstanding stays so until a turn fails
/// it, with the same error.
pub proof fn lemma_setup_failure_is_told<C>(
    daemon: DaemonModel<C>,
    reason: Seq<char>,
    requests: Seq<PredictionRequest>,
    callers: Seq<C>,
)
    requires
        daemon.wf(),
        daemon.runner.readiness == ReadinessModel::SetupFailed(reason),
        !(daemon.client.phase is Closed),
        requests.len() == callers.len(),
    ensures
        call_all(daemon, requests, callers).wf(),
        !call_all(daemon, requests, callers).accepts(),
        call_all(daemon, requests, callers).seen_phase() == ClientPhase::SetupFailed(reason),
        call_all(daemon, requests, callers).seen_phase().disconnect() == ClientPhase::SetupFailed(
            reason,
        ),
        call_all(daemon, requests, callers).runner == daemon.runner,
        call_all(daemon, requests, callers).client.outstanding == daemon.client.outstanding,
        call_all(daemon, requests, callers).waiting() == daemon.waiting(),
    decreases requests.len(),
{
    if requests.len() > 0 {
        lemma_setup_failure_is_told(daemon, reason, requests.drop_last(), callers.drop_last());
    }
}

} // verus!
