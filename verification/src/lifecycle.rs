//! The run sequence as a state machine driven by outcome events.
//!
//! The host that owns the OS thread performs one outside operation at a time
//! — register the control handler, build the async runtime, report a status,
//! bind the socket, serve until the shutdown gate resolves — and hands the
//! outcome back as a `RunEvent`. `step` decides, from the current phase and
//! that outcome, the next phase and the next action. Every failure after
//! registration funnels through one best-effort "report stopped with the
//! error code" action before the run finishes with its error; terminal
//! phases are absorbing. The lemmas at the end state the run-level
//! guarantees over whole event sequences.

use vstd::prelude::*;
use crate::status::{
    ErrorKind, ServiceError, ServiceState, ServiceStatus, INTERNAL_ERROR_EXIT_CODE,
    SUCCESS_EXIT_CODE, error_after_report_spec, running_status_spec, stopped_status_spec,
};

verus! {

/// How a finished run ended.
#[derive(Clone, Copy, Debug, PartialEq, Eq)]
pub enum Completion {
    Succeeded,
    Failed(ServiceError),
}

/// Where the run stands: each non-terminal phase is waiting for the outcome
/// of exactly one outside operation.
#[derive(Clone, Copy, Debug, PartialEq, Eq)]
pub enum Phase {
    /// Waiting for the control handler to be registered. No status can be
    /// reported before this: the reporting handle only exists afterwards.
    Registering,
    /// Waiting for the async runtime to be constructed.
    BuildingRuntime,
    /// Waiting for the running status report to be acknowledged.
    ReportingRunning,
    /// Waiting for the listening socket to be bound.
    Binding,
    /// Waiting for the server to finish draining after the shutdown gate resolved.
    Serving,
    /// Waiting for the terminal success status report to be acknowledged.
    ReportingCleanStop,
    /// The operation named here failed; waiting for the outcome of the
    /// best-effort "stopped with error code" report.
    Failing(ErrorKind),
    /// The run is over; no further action is ever taken.
    Finished(Completion),
}

/// The outcome of one outside operation, handed back by the host.
#[derive(Clone, Copy, Debug, PartialEq, Eq)]
pub enum RunEvent {
    Registered(bool),
    RuntimeBuilt(bool),
    RunningReported(bool),
    SocketBound(bool),
    ServeFinished(bool),
    CleanStopReported(bool),
    ErrorStopReported(bool),
}

/// What the host must do next.
#[derive(Clone, Copy, Debug, PartialEq, Eq)]
pub enum RunAction {
    /// Register the control handler with the service manager.
    RegisterHandler,
    /// Construct the async runtime.
    BuildRuntime,
    /// Report this status record to the service manager.
    ReportStatus(ServiceStatus),
    /// Bind the listening socket.
    BindSocket,
    /// Serve until the shutdown gate resolves and outstanding work drains.
    Serve,
    /// The run is over with this completion; exit.
    Finish(Completion),
    /// The event did not belong to the current phase; do nothing.
    Idle,
}

/// The phase after consuming `e` in phase `p`. An event that does not belong
/// to the phase changes nothing. Terminal: a finished run stays finished.
pub open spec fn step_phase_spec(p: Phase, e: RunEvent) -> Phase {
    match (p, e) {
        (Phase::Registering, RunEvent::Registered(true)) => Phase::BuildingRuntime,
        (Phase::Registering, RunEvent::Registered(false)) => Phase::Finished(
            Completion::Failed(ServiceError { kind: ErrorKind::HandlerRegistration, report_failed: false }),
        ),
        (Phase::BuildingRuntime, RunEvent::RuntimeBuilt(true)) => Phase::ReportingRunning,
        (Phase::BuildingRuntime, RunEvent::RuntimeBuilt(false)) => Phase::Failing(ErrorKind::RuntimeConstruction),
        (Phase::ReportingRunning, RunEvent::RunningReported(true)) => Phase::Binding,
        (Phase::ReportingRunning, RunEvent::RunningReported(false)) => Phase::Failing(ErrorKind::StatusReport),
        (Phase::Binding, RunEvent::SocketBound(true)) => Phase::Serving,
        (Phase::Binding, RunEvent::SocketBound(false)) => Phase::Failing(ErrorKind::SocketBind),
        (Phase::Serving, RunEvent::ServeFinished(true)) => Phase::ReportingCleanStop,
        (Phase::Serving, RunEvent::ServeFinished(false)) => Phase::Failing(ErrorKind::Serve),
        (Phase::ReportingCleanStop, RunEvent::CleanStopReported(true)) => Phase::Finished(Completion::Succeeded),
        (Phase::ReportingCleanStop, RunEvent::CleanStopReported(false)) => Phase::Failing(ErrorKind::StatusReport),
        (Phase::Failing(kind), RunEvent::ErrorStopReported(ok)) => Phase::Finished(
            Completion::Failed(error_after_report_spec(kind, ok)),
        ),
        _ => p,
    }
}

/// The action owed after consuming `e` in phase `p`. Every failure after
/// registration emits the best-effort error-stop report; registration
/// failure can only finish, since no reporting handle exists yet.
pub open spec fn step_action_spec(p: Phase, e: RunEvent) -> RunAction {
    match (p, e) {
        (Phase::Registering, RunEvent::Registered(true)) => RunAction::BuildRuntime,
        (Phase::Registering, RunEvent::Registered(false)) => RunAction::Finish(
            Completion::Failed(ServiceError { kind: ErrorKind::HandlerRegistration, report_failed: false }),
        ),
        (Phase::BuildingRuntime, RunEvent::RuntimeBuilt(true)) => RunAction::ReportStatus(running_status_spec()),
        (Phase::BuildingRuntime, RunEvent::RuntimeBuilt(false)) => RunAction::ReportStatus(
            stopped_status_spec(INTERNAL_ERROR_EXIT_CODE),
        ),
        (Phase::ReportingRunning, RunEvent::RunningReported(true)) => RunAction::BindSocket,
        (Phase::ReportingRunning, RunEvent::RunningReported(false)) => RunAction::ReportStatus(
            stopped_status_spec(INTERNAL_ERROR_EXIT_CODE),
        ),
        (Phase::Binding, RunEvent::SocketBound(true)) => RunAction::Serve,
        (Phase::Binding, RunEvent::SocketBound(false)) => RunAction::ReportStatus(
            stopped_status_spec(INTERNAL_ERROR_EXIT_CODE),
        ),
        (Phase::Serving, RunEvent::ServeFinished(true)) => RunAction::ReportStatus(
            stopped_status_spec(SUCCESS_EXIT_CODE),
        ),
        (Phase::Serving, RunEvent::ServeFinished(false)) => RunAction::ReportStatus(
            stopped_status_spec(INTERNAL_ERROR_EXIT_CODE),
        ),
        (Phase::ReportingCleanStop, RunEvent::CleanStopReported(true)) => RunAction::Finish(Completion::Succeeded),
        (Phase::ReportingCleanStop, RunEvent::CleanStopReported(false)) => RunAction::ReportStatus(
            stopped_status_spec(INTERNAL_ERROR_EXIT_CODE),
        ),
        (Phase::Failing(kind), RunEvent::ErrorStopReported(ok)) => RunAction::Finish(
            Completion::Failed(error_after_report_spec(kind, ok)),
        ),
        _ => RunAction::Idle,
    }
}

/// The phase and first action at service start: nothing has happened yet,
/// and the host's first move is to register the control handler.
pub fn start() -> (r: (Phase, RunAction))
    ensures
        r.0 == Phase::Registering,
        r.1 == RunAction::RegisterHandler,
{
    (Phase::Registering, RunAction::RegisterHandler)
}

/// Consume one outcome event: the next phase and the action the host owes.
pub fn step(p: Phase, e: RunEvent) -> (r: (Phase, RunAction))
    ensures
        r.0 == step_phase_spec(p, e),
        r.1 == step_action_spec(p, e),
{
    match (p, e) {
        (Phase::Registering, RunEvent::Registered(true)) => (Phase::BuildingRuntime, RunAction::BuildRuntime),
        (Phase::Registering, RunEvent::Registered(false)) => {
            let err = ServiceError { kind: ErrorKind::HandlerRegistration, report_failed: false };
            (Phase::Finished(Completion::Failed(err)), RunAction::Finish(Completion::Failed(err)))
        },
        (Phase::BuildingRuntime, RunEvent::RuntimeBuilt(true)) => (
            Phase::ReportingRunning,
            RunAction::ReportStatus(crate::status::running_status()),
        ),
        (Phase::BuildingRuntime, RunEvent::RuntimeBuilt(false)) => (
            Phase::Failing(ErrorKind::RuntimeConstruction),
            RunAction::ReportStatus(crate::status::error_stop_status()),
        ),
        (Phase::ReportingRunning, RunEvent::RunningReported(true)) => (Phase::Binding, RunAction::BindSocket),
        (Phase::ReportingRunning, RunEvent::RunningReported(false)) => (
            Phase::Failing(ErrorKind::StatusReport),
            RunAction::ReportStatus(crate::status::error_stop_status()),
        ),
        (Phase::Binding, RunEvent::SocketBound(true)) => (Phase::Serving, RunAction::Serve),
        (Phase::Binding, RunEvent::SocketBound(false)) => (
            Phase::Failing(ErrorKind::SocketBind),
            RunAction::ReportStatus(crate::status::error_stop_status()),
        ),
        (Phase::Serving, RunEvent::ServeFinished(true)) => (
            Phase::ReportingCleanStop,
            RunAction::ReportStatus(crate::status::clean_stop_status()),
        ),
        (Phase::Serving, RunEvent::ServeFinished(false)) => (
            Phase::Failing(ErrorKind::Serve),
            RunAction::ReportStatus(crate::status::error_stop_status()),
        ),
        (Phase::ReportingCleanStop, RunEvent::CleanStopReported(true)) => (
            Phase::Finished(Completion::Succeeded),
            RunAction::Finish(Completion::Succeeded),
        ),
        (Phase::ReportingCleanStop, RunEvent::CleanStopReported(false)) => (
            Phase::Failing(ErrorKind::StatusReport),
            RunAction::ReportStatus(crate::status::error_stop_status()),
        ),
        (Phase::Failing(kind), RunEvent::ErrorStopReported(ok)) => {
            let err = crate::status::error_after_report(kind, ok);
            (Phase::Finished(Completion::Failed(err)), RunAction::Finish(Completion::Failed(err)))
        },
        (other, _) => (other, RunAction::Idle),
    }
}

/// The phase after consuming a whole sequence of outcome events.
pub open spec fn run_phase_spec(p: Phase, evs: Seq<RunEvent>) -> Phase
    decreases evs.len(),
{
    if evs.len() == 0 {
        p
    } else {
        run_phase_spec(step_phase_spec(p, evs[0]), evs.skip(1))
    }
}

/// The actions emitted while consuming a whole sequence of outcome events,
/// one per event, in order.
pub open spec fn run_actions_spec(p: Phase, evs: Seq<RunEvent>) -> Seq<RunAction>
    decreases evs.len(),
{
    if evs.len() == 0 {
        Seq::empty()
    } else {
        seq![step_action_spec(p, evs[0])] + run_actions_spec(step_phase_spec(p, evs[0]), evs.skip(1))
    }
}

/// Progress order of the phases: a step never moves backwards through it.
pub open spec fn phase_rank(p: Phase) -> int {
    match p {
        Phase::Registering => 0,
        Phase::BuildingRuntime => 1,
        Phase::ReportingRunning => 2,
        Phase::Binding => 3,
        Phase::Serving => 4,
        Phase::ReportingCleanStop => 5,
        Phase::Failing(_) => 6,
        Phase::Finished(_) => 7,
    }
}

/// An action that only winds the run down: finishing, or ignoring an event.
/// Once the run is failing or finished, these are the only actions left.
pub open spec fn is_wind_down_action(a: RunAction) -> bool {
    match a {
        RunAction::Finish(_) => true,
        RunAction::Idle => true,
        _ => false,
    }
}

/// One step never decreases the phase's progress rank.
pub proof fn lemma_step_rank_nondecreasing(p: Phase, e: RunEvent)
    ensures
        phase_rank(p) <= phase_rank(step_phase_spec(p, e)),
{
}

/// Folding a concatenation is folding one part after the other.
pub proof fn lemma_run_phase_append(p: Phase, a: Seq<RunEvent>, b: Seq<RunEvent>)
    ensures
        run_phase_spec(p, a + b) == run_phase_spec(run_phase_spec(p, a), b),
    decreases a.len(),
{
    if a.len() == 0 {
        assert(a + b =~= b);
    } else {
        assert((a + b)[0] == a[0]);
        assert((a + b).skip(1) =~= a.skip(1) + b);
        lemma_run_phase_append(step_phase_spec(p, a[0]), a.skip(1), b);
    }
}

/// A whole run never decreases the phase's progress rank.
pub proof fn lemma_run_rank_nondecreasing(p: Phase, evs: Seq<RunEvent>)
    ensures
        phase_rank(p) <= phase_rank(run_phase_spec(p, evs)),
    decreases evs.len(),
{
    if evs.len() > 0 {
        lemma_step_rank_nondecreasing(p, evs[0]);
        lemma_run_rank_nondecreasing(step_phase_spec(p, evs[0]), evs.skip(1));
    }
}

/// The rank at a later prefix of the run is at least the rank at an earlier
/// one.
pub proof fn lemma_phase_rank_from(p: Phase, evs: Seq<RunEvent>, a: int, b: int)
    requires
        0 <= a <= b <= evs.len(),
    ensures
        phase_rank(run_phase_spec(p, evs.take(a))) <= phase_rank(run_phase_spec(p, evs.take(b))),
{
    assert(evs.take(b) =~= evs.take(a) + evs.subrange(a, b));
    lemma_run_phase_append(p, evs.take(a), evs.subrange(a, b));
    lemma_run_rank_nondecreasing(run_phase_spec(p, evs.take(a)), evs.subrange(a, b));
}

/// A run emits exactly one action per consumed event.
pub proof fn lemma_run_actions_len(p: Phase, evs: Seq<RunEvent>)
    ensures
        run_actions_spec(p, evs).len() == evs.len(),
    decreases evs.len(),
{
    if evs.len() > 0 {
        lemma_run_actions_len(step_phase_spec(p, evs[0]), evs.skip(1));
    }
}

/// Consuming one more event steps the phase once.
pub proof fn lemma_phase_take_succ(p: Phase, evs: Seq<RunEvent>, j: int)
    requires
        0 <= j < evs.len(),
    ensures
        run_phase_spec(p, evs.take(j + 1)) == step_phase_spec(run_phase_spec(p, evs.take(j)), evs[j]),
{
    assert(evs.take(j + 1) =~= evs.take(j) + seq![evs[j]]);
    lemma_run_phase_append(p, evs.take(j), seq![evs[j]]);
    let q = run_phase_spec(p, evs.take(j));
    assert(run_phase_spec(q, seq![evs[j]]) == step_phase_spec(q, evs[j])) by {
        let s = seq![evs[j]];
        assert(s.len() == 1);
        assert(s[0] == evs[j]);
        assert(s.skip(1) =~= Seq::<RunEvent>::empty());
        assert(run_phase_spec(q, s) == run_phase_spec(step_phase_spec(q, evs[j]), s.skip(1)));
        assert(run_phase_spec(step_phase_spec(q, evs[j]), Seq::<RunEvent>::empty())
            == step_phase_spec(q, evs[j]));
    }
}

/// The action a run emits at an index is the step action of the phase the
/// preceding events reached.
pub proof fn lemma_action_at(p: Phase, evs: Seq<RunEvent>, j: int)
    requires
        0 <= j < evs.len(),
    ensures
        run_actions_spec(p, evs).len() == evs.len(),
        run_actions_spec(p, evs)[j] == step_action_spec(run_phase_spec(p, evs.take(j)), evs[j]),
    decreases j,
{
    lemma_run_actions_len(p, evs);
    if j == 0 {
        assert(evs.take(0) =~= Seq::<RunEvent>::empty());
    } else {
        let p1 = step_phase_spec(p, evs[0]);
        lemma_run_actions_len(p1, evs.skip(1));
        lemma_action_at(p1, evs.skip(1), j - 1);
        assert(evs.skip(1).take(j - 1) =~= evs.take(j).skip(1));
        assert(run_phase_spec(p, evs.take(j)) == run_phase_spec(p1, evs.skip(1).take(j - 1))) by {
            assert(evs.take(j)[0] == evs[0]);
            assert(evs.take(j).skip(1) =~= evs.skip(1).take(j - 1));
        }
        assert(evs.skip(1)[j - 1] == evs[j]);
    }
}

/// A finished run stays finished, whatever else is delivered.
pub proof fn lemma_finished_phase_stays(c: Completion, evs: Seq<RunEvent>)
    ensures
        run_phase_spec(Phase::Finished(c), evs) == Phase::Finished(c),
    decreases evs.len(),
{
    if evs.len() > 0 {
        lemma_finished_phase_stays(c, evs.skip(1));
    }
}

/// Terminal phases are absorbing: after the run has finished, every further
/// event is ignored and no action is ever emitted again.
pub proof fn lemma_finished_is_terminal(c: Completion, evs: Seq<RunEvent>)
    ensures
        run_phase_spec(Phase::Finished(c), evs) == Phase::Finished(c),
        run_actions_spec(Phase::Finished(c), evs).len() == evs.len(),
        forall|j: int|
            0 <= j < evs.len() ==> #[trigger] run_actions_spec(Phase::Finished(c), evs)[j]
                == RunAction::Idle,
{
    lemma_finished_phase_stays(c, evs);
    lemma_run_actions_len(Phase::Finished(c), evs);
    assert forall|j: int| 0 <= j < evs.len() implies #[trigger] run_actions_spec(
        Phase::Finished(c),
        evs,
    )[j] == RunAction::Idle by {
        lemma_action_at(Phase::Finished(c), evs, j);
        lemma_finished_phase_stays(c, evs.take(j));
    }
}

/// Serving is only ever reached from a successful bind: the serve action is
/// emitted exactly when the bound socket was handed over.
pub proof fn lemma_serve_action_inversion(p: Phase, e: RunEvent)
    requires
        step_action_spec(p, e) == RunAction::Serve,
    ensures
        p == Phase::Binding,
        e == RunEvent::SocketBound(true),
        step_phase_spec(p, e) == Phase::Serving,
{
}

/// The terminal success report is emitted exactly when the server finished
/// draining without error.
pub proof fn lemma_clean_stop_action_inversion(p: Phase, e: RunEvent)
    requires
        step_action_spec(p, e) == RunAction::ReportStatus(stopped_status_spec(SUCCESS_EXIT_CODE)),
    ensures
        p == Phase::Serving,
        e == RunEvent::ServeFinished(true),
{
}

/// Every step that emits the error-stop report moves the run into a failing
/// phase.
pub proof fn lemma_error_stop_action_rank(p: Phase, e: RunEvent)
    requires
        step_action_spec(p, e) == RunAction::ReportStatus(
            stopped_status_spec(INTERNAL_ERROR_EXIT_CODE),
        ),
    ensures
        phase_rank(step_phase_spec(p, e)) >= phase_rank(Phase::Failing(ErrorKind::Serve)),
{
}

/// Once the run is failing or finished, every further step only winds down.
pub proof fn lemma_late_phase_winds_down(p: Phase, e: RunEvent)
    requires
        phase_rank(p) >= phase_rank(Phase::Failing(ErrorKind::Serve)),
    ensures
        is_wind_down_action(step_action_spec(p, e)),
        phase_rank(step_phase_spec(p, e)) >= phase_rank(Phase::Failing(ErrorKind::Serve)),
{
}

/// If the socket bind fails, the run reports exactly the stopped status with
/// the internal-error exit code, no serve is ever attempted anywhere in the
/// run, and everything after the failure only winds the run down — so that
/// error-stop report is the final status the run reports.
pub proof fn lemma_bind_failure_stops_with_error(evs: Seq<RunEvent>, i: int)
    requires
        0 <= i < evs.len(),
        run_phase_spec(Phase::Registering, evs.take(i)) == Phase::Binding,
        evs[i] == RunEvent::SocketBound(false),
    ensures
        run_actions_spec(Phase::Registering, evs).len() == evs.len(),
        run_actions_spec(Phase::Registering, evs)[i] == RunAction::ReportStatus(
            stopped_status_spec(INTERNAL_ERROR_EXIT_CODE),
        ),
        forall|j: int|
            0 <= j < evs.len() ==> #[trigger] run_actions_spec(Phase::Registering, evs)[j]
                != RunAction::Serve,
        forall|j: int|
            i < j < evs.len() ==> is_wind_down_action(
                #[trigger] run_actions_spec(Phase::Registering, evs)[j],
            ),
{
    let p0 = Phase::Registering;
    lemma_action_at(p0, evs, i);
    lemma_phase_take_succ(p0, evs, i);
    assert forall|j: int| i < j < evs.len() implies is_wind_down_action(
        #[trigger] run_actions_spec(p0, evs)[j],
    ) by {
        lemma_action_at(p0, evs, j);
        lemma_phase_rank_from(p0, evs, i + 1, j);
        lemma_late_phase_winds_down(run_phase_spec(p0, evs.take(j)), evs[j]);
    }
    assert forall|j: int| 0 <= j < evs.len() implies #[trigger] run_actions_spec(p0, evs)[j]
        != RunAction::Serve by {
        if run_actions_spec(p0, evs)[j] == RunAction::Serve {
            lemma_action_at(p0, evs, j);
            let pj = run_phase_spec(p0, evs.take(j));
            lemma_serve_action_inversion(pj, evs[j]);
            if j < i {
                lemma_phase_take_succ(p0, evs, j);
                lemma_phase_rank_from(p0, evs, j + 1, i);
                assert(false);
            } else if j == i {
                assert(false);
            } else {
                lemma_phase_rank_from(p0, evs, i + 1, j);
                assert(false);
            }
        }
    }
}

/// The terminal success report can only follow a completed graceful drain:
/// wherever a run emits the stopped status with the success exit code, the
/// server was serving and had just finished draining without error.
pub proof fn lemma_clean_stop_follows_serve_completion(evs: Seq<RunEvent>, j: int)
    requires
        0 <= j < evs.len(),
        run_actions_spec(Phase::Registering, evs)[j] == RunAction::ReportStatus(
            stopped_status_spec(SUCCESS_EXIT_CODE),
        ),
    ensures
        run_phase_spec(Phase::Registering, evs.take(j)) == Phase::Serving,
        evs[j] == RunEvent::ServeFinished(true),
{
    lemma_action_at(Phase::Registering, evs, j);
    lemma_clean_stop_action_inversion(run_phase_spec(Phase::Registering, evs.take(j)), evs[j]);
}

/// Reported statuses are monotone in the terminal state: once a run emits
/// the error-stop report, everything after it only winds down — no further
/// status of any kind is reported.
pub proof fn lemma_error_stop_is_last_report(evs: Seq<RunEvent>, j: int)
    requires
        0 <= j < evs.len(),
        run_actions_spec(Phase::Registering, evs)[j] == RunAction::ReportStatus(
            stopped_status_spec(INTERNAL_ERROR_EXIT_CODE),
        ),
    ensures
        forall|k: int|
            j < k < evs.len() ==> is_wind_down_action(
                #[trigger] run_actions_spec(Phase::Registering, evs)[k],
            ),
{
    let p0 = Phase::Registering;
    lemma_action_at(p0, evs, j);
    lemma_error_stop_action_rank(run_phase_spec(p0, evs.take(j)), evs[j]);
    lemma_phase_take_succ(p0, evs, j);
    assert forall|k: int| j < k < evs.len() implies is_wind_down_action(
        #[trigger] run_actions_spec(p0, evs)[k],
    ) by {
        lemma_action_at(p0, evs, k);
        lemma_phase_rank_from(p0, evs, j + 1, k);
        lemma_late_phase_winds_down(run_phase_spec(p0, evs.take(k)), evs[k]);
    }
}

} // verus!
