//! The readiness gate: the worker's setup, as callers see it.
//!
//! It starts shut. The setup routine resolves it once, to ready or to
//! failed, and from then on it never changes: every caller, whenever it
//! looks, sees the same outcome.

use crate::error::RunnerError;
use vstd::prelude::*;
use vstd::string::*;

verus! {

/// Where the worker's setup stands.
#[derive(Debug, Clone)]
pub enum ReadinessState {
    /// Setup has not reported yet.
    Starting,
    /// Setup succeeded: the worker takes requests.
    Ready,
    /// Setup failed, for this reason: the worker will never take requests.
    SetupFailed(String),
}

/// A `ReadinessState` as a mathematical value.
pub enum ReadinessModel {
    Starting,
    Ready,
    SetupFailed(Seq<char>),
}

impl View for ReadinessState {
    type V = ReadinessModel;

    open spec fn view(&self) -> ReadinessModel {
        match self {
            ReadinessState::Starting => ReadinessModel::Starting,
            ReadinessState::Ready => ReadinessModel::Ready,
            ReadinessState::SetupFailed(reason) => ReadinessModel::SetupFailed(reason@),
        }
    }
}

/// What setup reports, as a mathematical value.
pub enum Report {
    /// Setup succeeded.
    Success,
    /// Setup failed, for this reason.
    Failure(Seq<char>),
}

/// The report that a result of setup stands for.
pub open spec fn report_view(report: Result<(), String>) -> Report {
    match report {
        Ok(_) => Report::Success,
        Err(reason) => Report::Failure(reason@),
    }
}

impl ReadinessModel {
    /// Whether setup has reported. A terminal state never changes.
    pub open spec fn is_terminal(self) -> bool {
        !(self is Starting)
    }

    /// The state after setup has reported `report`. Only the first report
    /// counts.
    pub open spec fn resolve(self, report: Report) -> Self {
        match self {
            ReadinessModel::Starting => match report {
                Report::Success => ReadinessModel::Ready,
                Report::Failure(reason) => ReadinessModel::SetupFailed(reason),
            },
            _ => self,
        }
    }

    /// The state after each of `reports` in turn.
    pub open spec fn resolve_all(self, reports: Seq<Report>) -> Self
        decreases reports.len(),
    {
        if reports.len() == 0 {
            self
        } else {
            self.resolve_all(reports.drop_last()).resolve(reports.last())
        }
    }

    /// What a caller that waits for readiness is told: nothing yet while
    /// setup runs, then what setup reported.
    pub open spec fn outcome(self) -> Option<Report> {
        match self {
            ReadinessModel::Starting => None,
            ReadinessModel::Ready => Some(Report::Success),
            ReadinessModel::SetupFailed(reason) => Some(Report::Failure(reason)),
        }
    }
}

/// Readiness comes from nothing but setup's own first report.
///
/// Without a report it stays shut. With reports, it shows the first of
/// them: ready only if that was a success, failed with that reason only if
/// that was a failure. So no caller is told "ready" before setup has
/// succeeded, and none after it has failed.
pub proof fn lemma_first_report_decides(reports: Seq<Report>)
    ensures
        reports.len() == 0 ==> ReadinessModel::Starting.resolve_all(reports).outcome() is None,
        reports.len() > 0 ==> ReadinessModel::Starting.resolve_all(reports).outcome() == Some(
            reports[0],
        ),
    decreases reports.len(),
{
    if reports.len() > 1 {
        lemma_first_report_decides(reports.drop_last());
    } else if reports.len() == 1 {
        assert(ReadinessModel::Starting.resolve_all(reports.drop_last())
            == ReadinessModel::Starting);
    }
}

/// A resolved gate is resolved for good.
///
/// Whatever is reported after the first report changes nothing. So once
/// one caller has seen a setup failure, every caller sees that failure, with
/// that reason, and never readiness; and likewise for readiness.
pub proof fn lemma_terminal_is_permanent(state: ReadinessModel, reports: Seq<Report>)
    requires
        state.is_terminal(),
    ensures
        state.resolve_all(reports) == state,
    decreases reports.len(),
{
    if reports.len() > 0 {
        lemma_terminal_is_permanent(state, reports.drop_last());
    }
}

/// What one look at the worker's readiness shows.
#[derive(Debug, Clone)]
pub enum ReadyPoll {
    /// Setup still runs: look again later.
    Pending,
    /// The worker takes requests.
    Ready,
    /// The worker will never take requests.
    Failed(RunnerError),
}

/// The state of the worker's setup, and the rule that it is set once.
pub struct ReadinessGate {
    state: ReadinessState,
}

impl View for ReadinessGate {
    type V = ReadinessModel;

    closed spec fn view(&self) -> ReadinessModel {
        self.state@
    }
}

impl ReadinessGate {
    /// A gate for a worker whose setup has not reported yet.
    pub fn new() -> (gate: Self)
        ensures
            gate@ is Starting,
    {
        ReadinessGate { state: ReadinessState::Starting }
    }

    /// Takes setup's report. The first report resolves the state; a later
    /// one is ignored. Says whether this one was the first.
    pub fn resolve(&mut self, report: Result<(), String>) -> (first: bool)
        ensures
            final(self)@ == old(self)@.resolve(report_view(report)),
            first == old(self)@ is Starting,
    {
        match self.state {
            ReadinessState::Starting => {
                match report {
                    Ok(()) => {
                        self.state = ReadinessState::Ready;
                    },
                    Err(reason) => {
                        self.state = ReadinessState::SetupFailed(reason);
                    },
                }
                true
            },
            _ => false,
        }
    }

    /// Looks at the state without waiting.
    pub fn poll(&self) -> (seen: ReadyPoll)
        ensures
            match self@ {
                ReadinessModel::Starting => seen is Pending,
                ReadinessModel::Ready => seen is Ready,
                ReadinessModel::SetupFailed(reason) => seen matches ReadyPoll::Failed(
                    RunnerError::SetupFailed(given),
                ) && given@ == reason,
            },
    {
        match &self.state {
            ReadinessState::Starting => ReadyPoll::Pending,
            ReadinessState::Ready => ReadyPoll::Ready,
            ReadinessState::SetupFailed(reason) => ReadyPoll::Failed(
                RunnerError::SetupFailed(reason.clone()),
            ),
        }
    }

    /// What a caller that waits for readiness is woken with: `None` while it
    /// has to go on waiting, then success, or the setup failure as an error.
    pub fn await_ready(&self) -> (woken: Option<Result<(), RunnerError>>)
        ensures
            match self@.outcome() {
                None => woken is None,
                Some(Report::Success) => woken matches Some(Ok(_)),
                Some(Report::Failure(reason)) => woken matches Some(
                    Err(RunnerError::SetupFailed(given)),
                ) && given@ == reason,
            },
    {
        match self.poll() {
            ReadyPoll::Pending => None,
            ReadyPoll::Ready => Some(Ok(())),
            ReadyPoll::Failed(error) => Some(Err(error)),
        }
    }

    /// Where the worker's setup stands.
    pub fn state(&self) -> (state: &ReadinessState)
        ensures
            state@ == self@,
    {
        &self.state
    }

    /// Whether the worker takes requests.
    pub fn is_ready(&self) -> (ready: bool)
        ensures
            ready == self@ is Ready,
    {
        match self.state {
            ReadinessState::Ready => true,
            _ => false,
        }
    }
}

} // verus!
