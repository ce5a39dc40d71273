//! The runner: requests, responses, the worker that answers them, and the
//! loop that feeds the worker from the dispatch queue.

use crate::error::RunnerError;
use crate::json::{as_i64, from_i64, json_as_i64, json_from_i64, json_member, member};
use crate::queue::{Admission, DispatchQueue, QueueModel};
use crate::readiness::{report_view, ReadinessGate, ReadinessModel, ReadinessState, ReadyPoll};
use serde_json::Value;
use vstd::prelude::*;
use vstd::string::*;

verus! {

/// What a caller asks for.
#[derive(Debug, Clone)]
pub struct PredictionRequest {
    /// The caller's own token for the request. It travels with the request
    /// and comes back in the response; nothing here matches on it.
    pub id: Option<i32>,
    /// What the worker is to work on.
    pub input: Value,
}

/// What a caller gets back.
#[derive(Debug, Clone)]
pub struct PredictionResponse {
    /// The token of the request, or zero if it had none.
    pub id: i32,
    /// How the prediction ended.
    pub result: PredictionResult,
}

/// How a prediction ended.
#[derive(Debug, Clone)]
pub enum PredictionResult {
    /// The worker produced this output.
    Succeeded(Value),
    /// The worker failed on this request, for this reason.
    Failed(String),
    /// The prediction was called off.
    Canceled,
}

impl PredictionRequest {
    /// The token that the response to this request carries.
    pub open spec fn response_id(self) -> i32 {
        match self.id {
            Some(id) => id,
            None => 0,
        }
    }
}

/// What the worker reports of one prediction, as a mathematical value.
pub enum Verdict {
    /// It produced this output.
    Output(Value),
    /// It failed, for this reason.
    Fault(Seq<char>),
}

/// The verdict that a worker's result stands for.
pub open spec fn verdict_view(outcome: Result<Value, String>) -> Verdict {
    match outcome {
        Ok(output) => Verdict::Output(output),
        Err(reason) => Verdict::Fault(reason@),
    }
}

impl PredictionResult {
    /// Whether this result says what `verdict` says: the same output, or a
    /// failure with the same reason.
    pub open spec fn carries(self, verdict: Verdict) -> bool {
        match verdict {
            Verdict::Output(output) => self == PredictionResult::Succeeded(output),
            Verdict::Fault(reason) => self matches PredictionResult::Failed(given) && given@
                == reason,
        }
    }
}

impl PredictionResponse {
    /// Whether this is the response that `request` is owed when the worker
    /// reports `verdict` of it.
    pub open spec fn settles(self, request: PredictionRequest, verdict: Verdict) -> bool {
        &&& self.id == request.response_id()
        &&& self.result.carries(verdict)
    }
}

/// Turns what the worker reports of one request into the response to it. A
/// failure of the worker becomes an ordinary response that says so.
pub fn conclude(id: Option<i32>, outcome: Result<Value, String>) -> (response: PredictionResponse)
    ensures
        response.id == (match id {
            Some(id) => id,
            None => 0,
        }),
        response.result.carries(verdict_view(outcome)),
{
    let result = match outcome {
        Ok(output) => PredictionResult::Succeeded(output),
        Err(reason) => PredictionResult::Failed(reason),
    };
    PredictionResponse { id: id.unwrap_or(0), result }
}

/// The number that the built-in worker is asked to double: the integer
/// under the key `num` of a JSON object.
pub open spec fn operand(input: Value) -> Option<i64> {
    match json_member(input, "num"@) {
        Some(number) => json_as_i64(number),
        None => None,
    }
}

/// What the built-in worker answers to `input`, if it can: twice the
/// operand. It cannot where there is no operand, or where twice the operand
/// is no `i64`.
pub open spec fn doubled(input: Value) -> Option<i64> {
    match operand(input) {
        Some(number) => if i64::MIN <= 2 * number <= i64::MAX {
            Some((2 * number) as i64)
        } else {
            None
        },
        None => None,
    }
}

/// What the built-in worker reports of `input`: the JSON number that holds
/// twice the operand, or the fault `Invalid input`.
pub open spec fn verdict_of(input: Value) -> Verdict {
    match doubled(input) {
        Some(twice) => Verdict::Output(json_from_i64(twice)),
        None => Verdict::Fault("Invalid input"@),
    }
}

impl PredictionResult {
    /// Whether this is the built-in worker's answer to `input`: the JSON
    /// number that holds twice the operand, or the failure `Invalid input`.
    pub open spec fn answers(self, input: Value) -> bool {
        self.carries(verdict_of(input))
    }
}

impl PredictionResponse {
    /// Whether this is the built-in worker's response to `request`.
    pub open spec fn responds_to(self, request: PredictionRequest) -> bool {
        &&& self.id == request.response_id()
        &&& self.result.answers(request.input)
    }

    /// Whether this is a response that `request` can get from `worker`: it
    /// carries the token of the request, and what the worker reports of the
    /// input of the request.
    pub open spec fn given_by<W: Fn(Value) -> Result<Value, String>>(
        self,
        worker: W,
        request: PredictionRequest,
    ) -> bool {
        exists|outcome: Result<Value, String>| #[trigger]
            call_ensures(worker, (request.input,), outcome) && self.settles(
                request,
                verdict_view(outcome),
            )
    }
}

/// The built-in worker: doubles the integer that the input holds under
/// `num`. An input without such an integer, or with one whose double
/// overflows, is a fault with the reason `Invalid input`.
pub fn predict(input: Value) -> (outcome: Result<Value, String>)
    ensures
        verdict_view(outcome) == verdict_of(input),
{
    let twice = match member(&input, "num") {
        Some(number) => match as_i64(number) {
            Some(num) => num.checked_mul(2),
            None => None,
        },
        None => None,
    };
    match twice {
        Some(twice) => Ok(from_i64(twice)),
        None => Err(String::from_str("Invalid input")),
    }
}

/// The answer of the built-in worker to one request.
pub fn process_request(request: &PredictionRequest) -> (result: PredictionResult)
    ensures
        result.answers(request.input),
{
    match predict(request.input.clone()) {
        Ok(output) => PredictionResult::Succeeded(output),
        Err(reason) => PredictionResult::Failed(reason),
    }
}

/// Serves one request with the built-in worker.
pub fn respond(request: &PredictionRequest) -> (response: PredictionResponse)
    ensures
        response.responds_to(*request),
{
    PredictionResponse { id: request.id.unwrap_or(0), result: process_request(request) }
}

/// What any worker may give to a request, the built-in worker does give:
/// its response.
pub proof fn lemma_builtin_worker(response: PredictionResponse, request: PredictionRequest)
    requires
        response.given_by(predict, request),
    ensures
        response.responds_to(request),
{
    let outcome = choose|outcome: Result<Value, String>| #[trigger]
        call_ensures(predict, (request.input,), outcome) && response.settles(
            request,
            verdict_view(outcome),
        );
}

/// A prediction that somebody has started and has to see through: if it is
/// let go before it is done, its failure has to be reported.
pub struct Prediction {
    id: usize,
    done: bool,
}

impl View for Prediction {
    type V = (usize, bool);

    closed spec fn view(&self) -> (usize, bool) {
        (self.id, self.done)
    }
}

impl Prediction {
    /// A prediction with this number that is not done.
    pub fn new(id: usize) -> (prediction: Self)
        ensures
            prediction@ == (id, false),
    {
        Prediction { id, done: false }
    }

    /// The number of the prediction.
    pub fn id(&self) -> (id: usize)
        ensures
            id == self@.0,
    {
        self.id
    }

    /// Whether the prediction is done.
    pub fn is_done(&self) -> (done: bool)
        ensures
            done == self@.1,
    {
        self.done
    }

    /// Marks the prediction as done.
    pub fn finish(&mut self)
        ensures
            final(self)@ == (old(self)@.0, true),
    {
        self.done = true;
    }

    /// What letting go of the prediction now calls for: the number to
    /// report a failure for, if the prediction is not done.
    pub fn on_drop(&self) -> (failed: Option<usize>)
        ensures
            failed == if self@.1 {
                None
            } else {
                Some(self@.0)
            },
    {
        if self.done {
            None
        } else {
            Some(self.id)
        }
    }
}

/// A call on its way to the worker: the request, and where the response to
/// it has to go. The destination is the caller's and is never looked into;
/// it is handed back, once, together with the response.
pub struct PendingCall<D> {
    pub request: PredictionRequest,
    pub destination: D,
}

/// A response on its way back: where it has to go, and the response.
pub struct Fulfilment<D> {
    pub destination: D,
    pub response: PredictionResponse,
}

/// What the runner keeps of the request that the worker is working on.
pub struct Job<D> {
    pub id: Option<i32>,
    pub destination: D,
}

/// The runner as a mathematical value.
pub struct RunnerModel<D> {
    /// The code that the worker was made from.
    pub code: Seq<char>,
    /// Where the worker's setup stands.
    pub readiness: ReadinessModel,
    /// The calls that wait for the worker.
    pub queue: QueueModel<PendingCall<D>>,
    /// The call that the worker is working on, if any.
    pub current: Option<Job<D>>,
}

impl<D> RunnerModel<D> {
    /// Whether the worker can take the next call now: it is set up, it is
    /// idle, and a call is in the queue.
    pub open spec fn can_begin(self) -> bool {
        &&& self.readiness is Ready
        &&& self.current is None
        &&& self.queue.accepted.len() > 0
    }

    /// The runner with another queue in place of its own.
    pub open spec fn with_queue(self, queue: QueueModel<PendingCall<D>>) -> Self {
        RunnerModel { queue, ..self }
    }

    /// The runner with the worker working on `current`, or idle.
    pub open spec fn with_current(self, current: Option<Job<D>>) -> Self {
        RunnerModel { current, ..self }
    }

    /// What holds of every runner: its queue is well formed.
    pub open spec fn wf(self) -> bool {
        self.queue.wf()
    }

    /// Whether `seen` is what a caller is shown who asks whether the runner
    /// takes calls: never after a failed setup or after the loop has ended,
    /// not yet while setup runs, and yes otherwise.
    pub open spec fn shows(self, seen: ReadyPoll) -> bool {
        match self.readiness {
            ReadinessModel::SetupFailed(reason) => seen matches ReadyPoll::Failed(
                RunnerError::SetupFailed(given),
            ) && given@ == reason,
            _ => if self.queue.closed {
                seen matches ReadyPoll::Failed(RunnerError::WorkerUnavailable)
            } else if self.readiness is Starting {
                seen is Pending
            } else {
                seen is Ready
            },
        }
    }

    /// Whether `after` and `taken` are what becomes of this runner, and what
    /// the caller is told, when `call` is handed to it by a caller that is
    /// ready to wait.
    pub open spec fn takes(
        self,
        call: PendingCall<D>,
        after: Self,
        taken: Result<Admission, RunnerError>,
    ) -> bool {
        match self.readiness {
            ReadinessModel::SetupFailed(reason) => {
                &&& taken matches Err(RunnerError::SetupFailed(given))
                &&& given@ == reason
                &&& after == self
            },
            _ => if self.queue.closed {
                &&& taken matches Err(RunnerError::WorkerUnavailable)
                &&& after == self
            } else {
                &&& taken matches Ok(admission)
                &&& admission is Suspended <==> self.queue.is_full()
                &&& after == self.with_queue(self.queue.enqueue(call))
            },
        }
    }

    /// The job that the worker has when it takes `call`: what the runner has
    /// to remember of the call to answer it.
    pub open spec fn job_of(call: PendingCall<D>) -> Job<D> {
        Job { id: call.request.id, destination: call.destination }
    }

    /// The runner after the worker has been offered the next call: if it can
    /// take one, the oldest call has left the queue and is its job.
    pub open spec fn begin(self) -> Self {
        if self.can_begin() {
            self.with_queue(self.queue.dequeue()).with_current(
                Some(Self::job_of(self.queue.accepted[0])),
            )
        } else {
            self
        }
    }

    /// The runner after the worker has reported `verdict` of its job: the
    /// worker is idle, whatever the verdict.
    pub open spec fn complete(self, verdict: Verdict) -> Self {
        self.with_current(None)
    }

    /// The runner after the worker has taken one call after the other, as
    /// many as there are `verdicts`, and has reported these verdicts of
    /// them.
    pub open spec fn serve_each(self, verdicts: Seq<Verdict>) -> Self
        decreases verdicts.len(),
    {
        if verdicts.len() == 0 {
            self
        } else {
            self.serve_each(verdicts.drop_last()).begin().complete(verdicts.last())
        }
    }

    /// The runner with nothing left waiting for the worker.
    pub open spec fn drained(self) -> Self {
        self.with_queue(
            QueueModel { accepted: Seq::empty(), suspended: Seq::empty(), ..self.queue },
        )
    }
}

impl<D> Fulfilment<D> {
    /// Whether this is what `call` is owed by the built-in worker: its own
    /// destination, with the response to its own request.
    pub open spec fn serves(self, call: PendingCall<D>) -> bool {
        &&& self.destination == call.destination
        &&& self.response.responds_to(call.request)
    }

    /// Whether this is what `call` can get from `worker`: its own
    /// destination, with a response of the worker to its own request.
    pub open spec fn served_by<W: Fn(Value) -> Result<Value, String>>(
        self,
        worker: W,
        call: PendingCall<D>,
    ) -> bool {
        &&& self.destination == call.destination
        &&& self.response.given_by(worker, call.request)
    }
}

/// A failed prediction fails one call and no other, and no call is served
/// out of turn.
///
/// Let a worker that is set up and idle serve the calls at the head of the
/// line, and let it report of them whatever it will, failures among them.
/// Then it is idle and set up as before, the calls behind those wait in
/// their order, and the call that it takes next is the next in line: its
/// response will carry that call's own token to that call's own
/// destination.
pub proof fn lemma_failure_is_contained<D>(runner: RunnerModel<D>, verdicts: Seq<Verdict>)
    requires
        runner.wf(),
        runner.readiness is Ready,
        runner.current is None,
        verdicts.len() < runner.queue.pending().len(),
    ensures
        runner.serve_each(verdicts).wf(),
        runner.serve_each(verdicts).readiness is Ready,
        runner.serve_each(verdicts).current is None,
        runner.serve_each(verdicts).queue.pending() == runner.queue.pending().skip(
            verdicts.len() as int,
        ),
        runner.serve_each(verdicts).can_begin(),
        runner.serve_each(verdicts).begin().current == Some(
            RunnerModel::job_of(runner.queue.pending()[verdicts.len() as int]),
        ),
    decreases verdicts.len(),
{
    if verdicts.len() > 0 {
        let earlier = verdicts.drop_last();
        lemma_failure_is_contained(runner, earlier);
        runner.serve_each(earlier).queue.lemma_dequeue_takes_oldest();
    }
    let next = runner.queue.pending()[verdicts.len() as int];
    assert(runner.serve_each(verdicts).queue.pending()[0] == next);
}

/// The worker's side of the daemon: the readiness gate, the dispatch queue
/// and the loop that serves one call at a time, as one state machine.
///
/// Callers use `poll_ready`, `call` and `try_call`. The task that owns the
/// worker uses `finish_setup`, then `begin` and `complete` around each
/// prediction (or `serve_next`, which runs the built-in worker), and
/// `shutdown` when it ends.
pub struct Runner<D> {
    code: String,
    gate: ReadinessGate,
    queue: DispatchQueue<PendingCall<D>>,
    current: Option<Job<D>>,
}

impl<D> View for Runner<D> {
    type V = RunnerModel<D>;

    closed spec fn view(&self) -> RunnerModel<D> {
        RunnerModel {
            code: self.code@,
            readiness: self.gate@,
            queue: self.queue@,
            current: self.current,
        }
    }
}

impl<D> Runner<D> {
    /// A runner for a worker made from `code`, with a queue of `concurrency`
    /// slots. Setup has not reported yet, and nothing is queued.
    ///
    /// A runner without any slot could never take a call, so `concurrency`
    /// must be at least one.
    pub fn new(code: String, concurrency: usize) -> (runner: Self)
        requires
            concurrency > 0,
        ensures
            runner@.wf(),
            runner@ == (RunnerModel::<D> {
                code: code@,
                readiness: ReadinessModel::Starting,
                queue: QueueModel::empty(concurrency as nat),
                current: None,
            }),
    {
        Runner {
            code,
            gate: ReadinessGate::new(),
            queue: DispatchQueue::new(concurrency),
            current: None,
        }
    }

    /// Whether the runner takes calls: not yet while setup runs, yes once it
    /// has succeeded, and never after it has failed or the loop has ended.
    pub fn poll_ready(&self) -> (seen: ReadyPoll)
        ensures
            self@.wf(),
            self@.shows(seen),
    {
        proof {
            use_type_invariant(&self.queue);
        }
        let seen = self.gate.poll();
        match seen {
            ReadyPoll::Failed(_) => seen,
            _ => if self.queue.is_closed() {
                ReadyPoll::Failed(RunnerError::WorkerUnavailable)
            } else {
                seen
            },
        }
    }

    /// Hands a call to the runner, for a caller that is ready to wait.
    ///
    /// After a failed setup the call fails with that failure, and after the
    /// loop has ended it fails with `WorkerUnavailable`; the runner is then
    /// as before. Otherwise the call is taken, behind all calls taken
    /// before it, and the result says whether it is in the queue or the
    /// caller is suspended until a slot is free. A call taken while setup
    /// still runs waits for setup like the others.
    pub fn call(&mut self, request: PredictionRequest, destination: D) -> (taken: Result<
        Admission,
        RunnerError,
    >)
        ensures
            final(self)@.wf(),
            old(self)@.takes(PendingCall { request, destination }, final(self)@, taken),
    {
        proof {
            use_type_invariant(&self.queue);
        }
        match self.gate.poll() {
            ReadyPoll::Failed(error) => Err(error),
            _ => self.queue.enqueue(PendingCall { request, destination }),
        }
    }

    /// Hands a call to the runner, for a caller that will not wait for
    /// setup: while setup runs, the call fails at once with `NotReady` and
    /// the runner is as before. In every other state this is `call`.
    pub fn try_call(&mut self, request: PredictionRequest, destination: D) -> (taken: Result<
        Admission,
        RunnerError,
    >)
        ensures
            final(self)@.wf(),
            if old(self)@.readiness is Starting && !old(self)@.queue.closed {
                &&& taken matches Err(RunnerError::NotReady)
                &&& final(self)@ == old(self)@
            } else {
                old(self)@.takes(PendingCall { request, destination }, final(self)@, taken)
            },
    {
        proof {
            use_type_invariant(&self.queue);
        }
        match self.poll_ready() {
            ReadyPoll::Pending => Err(RunnerError::NotReady),
            _ => self.call(request, destination),
        }
    }

    /// Takes the report of the worker's setup. Only the first report counts.
    ///
    /// A success lets the worker begin: the calls that were taken meanwhile
    /// stay queued. A failure is for good and ends the loop: the queue is
    /// closed, and the calls that waited in it are handed back, oldest
    /// first, to be failed with the setup failure.
    pub fn finish_setup(&mut self, report: Result<(), String>) -> (rejected: Vec<PendingCall<D>>)
        ensures
            final(self)@.wf(),
            final(self)@.code == old(self)@.code,
            final(self)@.current == old(self)@.current,
            final(self)@.readiness == old(self)@.readiness.resolve(report_view(report)),
            if old(self)@.readiness is Starting && report is Err {
                &&& final(self)@.queue == old(self)@.queue.close()
                &&& rejected@ == old(self)@.queue.pending()
            } else {
                &&& final(self)@.queue == old(self)@.queue
                &&& rejected@.len() == 0
            },
    {
        proof {
            use_type_invariant(&self.queue);
        }
        let failed = report.is_err();
        let first = self.gate.resolve(report);
        if first && failed {
            self.queue.close()
        } else {
            Vec::new()
        }
    }

    /// Lets the worker take the next call, if it can: hands out the request
    /// of the oldest call in the queue and keeps where its response has to
    /// go. Until `complete` is called the worker is busy, and no other call
    /// leaves the queue.
    pub fn begin(&mut self) -> (request: Option<PredictionRequest>)
        ensures
            final(self)@.wf(),
            final(self)@ == old(self)@.begin(),
            request == if old(self)@.can_begin() {
                Some(old(self)@.queue.accepted[0].request)
            } else {
                None
            },
    {
        proof {
            use_type_invariant(&self.queue);
        }
        if !self.gate.is_ready() || self.current.is_some() {
            return None;
        }
        match self.queue.dequeue() {
            Some(call) => {
                self.current = Some(Job { id: call.request.id, destination: call.destination });
                Some(call.request)
            },
            None => None,
        }
    }

    /// Takes what the worker reports of the call it was working on, and
    /// hands back the response with the destination of that call. The worker
    /// is idle again, whatever it reported: a failed prediction fails one
    /// call and no other.
    pub fn complete(&mut self, outcome: Result<Value, String>) -> (done: Option<Fulfilment<D>>)
        ensures
            final(self)@.wf(),
            final(self)@ == old(self)@.complete(verdict_view(outcome)),
            match old(self)@.current {
                Some(job) => {
                    &&& done matches Some(fulfilment)
                    &&& fulfilment.destination == job.destination
                    &&& fulfilment.response.id == (match job.id {
                        Some(id) => id,
                        None => 0,
                    })
                    &&& fulfilment.response.result.carries(verdict_view(outcome))
                },
                None => done is None,
            },
    {
        proof {
            use_type_invariant(&self.queue);
        }
        match self.current.take() {
            Some(job) => Some(
                Fulfilment { destination: job.destination, response: conclude(job.id, outcome) },
            ),
            None => None,
        }
    }

    /// Serves the oldest call in the queue, if the worker can take one: has
    /// `worker` work on the input of its request, and hands back the
    /// response with the destination of the call. A fault of the worker is
    /// the answer to this call, and the loop goes on.
    pub fn serve_next_with<W: Fn(Value) -> Result<Value, String>>(&mut self, worker: &W) -> (done:
        Option<Fulfilment<D>>)
        requires
            forall|input: Value| call_requires(*worker, (input,)),
        ensures
            final(self)@.wf(),
            if old(self)@.can_begin() {
                &&& done matches Some(fulfilment)
                &&& fulfilment.served_by(*worker, old(self)@.queue.accepted[0])
                &&& final(self)@ == old(self)@.with_queue(old(self)@.queue.dequeue())
            } else {
                &&& done is None
                &&& final(self)@ == old(self)@
            },
    {
        proof {
            use_type_invariant(&self.queue);
        }
        if !self.gate.is_ready() || self.current.is_some() {
            return None;
        }
        match self.queue.dequeue() {
            Some(call) => {
                let PendingCall { request, destination } = call;
                let PredictionRequest { id, input } = request;
                let outcome = worker(input);
                let response = conclude(id, outcome);
                Some(Fulfilment { destination, response })
            },
            None => None,
        }
    }

    /// Serves the oldest call in the queue with the built-in worker, if the
    /// worker can take one.
    pub fn serve_next(&mut self) -> (done: Option<Fulfilment<D>>)
        ensures
            final(self)@.wf(),
            if old(self)@.can_begin() {
                &&& done matches Some(fulfilment)
                &&& fulfilment.serves(old(self)@.queue.accepted[0])
                &&& final(self)@ == old(self)@.with_queue(old(self)@.queue.dequeue())
            } else {
                &&& done is None
                &&& final(self)@ == old(self)@
            },
    {
        let done = self.serve_next_with(&predict);
        proof {
            if done is Some {
                lemma_builtin_worker(done->0.response, old(self)@.queue.accepted[0].request);
            }
        }
        done
    }

    /// Serves every call that waits, one after the other and oldest first,
    /// until nothing waits. Does nothing unless the worker is set up and
    /// idle.
    ///
    /// Each call is answered exactly once and in its turn: the fulfilments
    /// come in the order of the calls, each with the destination of its own
    /// call and a response of `worker` to its own request. A request that
    /// the worker fails on gets its failure, and the calls behind it get
    /// their answers.
    pub fn serve_all_with<W: Fn(Value) -> Result<Value, String>>(&mut self, worker: &W) -> (served:
        Vec<Fulfilment<D>>)
        requires
            forall|input: Value| call_requires(*worker, (input,)),
        ensures
            final(self)@.wf(),
            if old(self)@.readiness is Ready && old(self)@.current is None {
                let calls = old(self)@.queue.pending();
                &&& served@.len() == calls.len()
                &&& forall|i: int|
                    0 <= i < calls.len() ==> (#[trigger] served@[i]).served_by(*worker, calls[i])
                &&& final(self)@ == old(self)@.drained()
            } else {
                &&& served@.len() == 0
                &&& final(self)@ == old(self)@
            },
    {
        proof {
            use_type_invariant(&self.queue);
        }
        let mut served: Vec<Fulfilment<D>> = Vec::new();
        if !self.gate.is_ready() || self.current.is_some() {
            return served;
        }
        let ghost calls = self@.queue.pending();
        loop
            invariant
                forall|input: Value| call_requires(*worker, (input,)),
                self@.wf(),
                self@.code == old(self)@.code,
                self@.readiness == old(self)@.readiness,
                self@.readiness is Ready,
                self@.current is None,
                old(self)@.current is None,
                self@.queue.capacity == old(self)@.queue.capacity,
                self@.queue.closed == old(self)@.queue.closed,
                calls == old(self)@.queue.pending(),
                served@.len() <= calls.len(),
                self@.queue.pending() == calls.skip(served@.len() as int),
                forall|i: int|
                    0 <= i < served@.len() ==> (#[trigger] served@[i]).served_by(*worker, calls[i]),
            ensures
                served@.len() == calls.len(),
                forall|i: int|
                    0 <= i < calls.len() ==> (#[trigger] served@[i]).served_by(*worker, calls[i]),
                self@ == old(self)@.drained(),
            decreases calls.len() - served@.len(),
        {
            proof {
                self@.queue.lemma_dequeue_takes_oldest();
            }
            match self.serve_next_with(worker) {
                Some(fulfilment) => {
                    served.push(fulfilment);
                },
                None => {
                    proof {
                        assert(self@.queue.suspended =~= Seq::empty());
                    }
                    break ;
                },
            }
        }
        served
    }

    /// Serves every call that waits with the built-in worker: `serve_all_with`
    /// for the worker that doubles.
    pub fn serve_all(&mut self) -> (served: Vec<Fulfilment<D>>)
        ensures
            final(self)@.wf(),
            if old(self)@.readiness is Ready && old(self)@.current is None {
                let calls = old(self)@.queue.pending();
                &&& served@.len() == calls.len()
                &&& forall|i: int|
                    0 <= i < calls.len() ==> (#[trigger] served@[i]).serves(calls[i])
                &&& final(self)@ == old(self)@.drained()
            } else {
                &&& served@.len() == 0
                &&& final(self)@ == old(self)@
            },
    {
        let served = self.serve_all_with(&predict);
        proof {
            if old(self)@.readiness is Ready && old(self)@.current is None {
                let calls = old(self)@.queue.pending();
                assert forall|i: int| 0 <= i < calls.len() implies (#[trigger] served@[i]).serves(
                    calls[i],
                ) by {
                    lemma_builtin_worker(served@[i].response, calls[i].request);
                }
            }
        }
        served
    }

    /// Ends the loop: closes the queue and hands back the calls that were
    /// not served, oldest first. From now on every call fails with
    /// `WorkerUnavailable`. There is no way back.
    pub fn shutdown(&mut self) -> (unserved: Vec<PendingCall<D>>)
        ensures
            final(self)@.wf(),
            final(self)@ == old(self)@.with_queue(old(self)@.queue.close()),
            unserved@ == old(self)@.queue.pending(),
    {
        proof {
            use_type_invariant(&self.queue);
        }
        self.queue.close()
    }

    /// Where the worker's setup stands.
    pub fn readiness(&self) -> (readiness: &ReadinessState)
        ensures
            readiness@ == self@.readiness,
    {
        self.gate.state()
    }

    /// The code that the worker was made from.
    pub fn code(&self) -> (code: &String)
        ensures
            code@ == self@.code,
    {
        &self.code
    }

    /// How many calls the queue holds at most.
    pub fn concurrency(&self) -> (concurrency: usize)
        ensures
            concurrency == self@.queue.capacity,
    {
        self.queue.capacity()
    }

    /// How many calls are in the queue.
    pub fn queued(&self) -> (queued: usize)
        ensures
            queued == self@.queue.accepted.len(),
    {
        self.queue.len()
    }

    /// How many callers are suspended behind the full queue.
    pub fn suspended(&self) -> (suspended: usize)
        ensures
            suspended == self@.queue.suspended.len(),
    {
        self.queue.waiting()
    }

    /// Whether the worker is working on a call.
    pub fn is_busy(&self) -> (busy: bool)
        ensures
            busy == self@.current is Some,
    {
        self.current.is_some()
    }
}

} // verus!
