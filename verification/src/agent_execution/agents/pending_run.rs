//! The decisions of running one dispatched queue input: record its dispatch,
//! supervise it, decide whether its owner's stop settles it, save its result and
//! settlement evidence, and stop the rest of the queue after a failure.
//! [`pending_run_step`] takes the run's state and the outcome of the last piece of
//! outside work to the next state and the work to do.
use super::AgentError;
use crate::agent_execution::sessions::StorageError;
use crate::domain::executions::ExecutionOutcome;
use vstd::prelude::*;

verus! {

/// Where the run stands.
#[derive(Clone, Copy, Debug, PartialEq, Eq, Structural)]
pub enum PendingPhase {
    /// Saving the dispatch evidence.
    RecordingDispatch,
    /// Supervising the invocation.
    Supervising,
    /// Asking history whether the invocation was recorded cancelled.
    CheckingCancellation,
    /// Saving the invocation's result.
    Finishing,
    /// Asking history for the settlement cause.
    ReadingHistory,
    /// Saving the settlement evidence.
    RecordingSettlement,
    /// Cancelling the inputs still queued.
    CancellingQueue,
    /// Settling the submission's receipt.
    SettlingSubmission,
    /// The run is over.
    Done,
}

/// The run's own state.
#[derive(Clone, Copy, Debug, PartialEq, Eq, Structural)]
pub struct PendingRun {
    /// Where the run stands.
    pub phase: PendingPhase,
    /// Saving the dispatch evidence failed; the input never ran.
    pub dispatch_failed: bool,
    /// The invocation's result is a failure.
    pub result_failed: bool,
    /// The owner's stop settles the input, which is then recorded cancelled.
    pub stopped: bool,
    /// Saving the result failed.
    pub finish_failed: bool,
    /// Reading or saving the settlement evidence failed.
    pub settlement_failed: bool,
    /// Cancelling the rest of the queue failed to save.
    pub queue_failed: bool,
}

/// The outcome of the outside work the run asked for.
#[derive(Clone, Copy, Debug, PartialEq, Eq, Structural)]
pub enum PendingEvent {
    /// The dispatch evidence was saved, or not.
    DispatchRecorded { saved: bool },
    /// Supervision returned: whether execution started, whether the result is a
    /// failure and whether it is Closed, and whether the owner has a stop.
    Supervised { started: bool, failed: bool, closed: bool, owner_stopped: bool },
    /// History says whether the invocation was recorded cancelled; `owner_stopped`
    /// tells whether the owner has a stop.
    CancellationChecked { cancelled: bool, owner_stopped: bool },
    /// The result was saved, or not.
    Finished { saved: bool },
    /// History gave the settlement cause, or failed.
    HistoryRead { ok: bool },
    /// The settlement evidence was saved, or not.
    SettlementRecorded { saved: bool },
    /// The rest of the queue was cancelled; whether its evidence failed to save.
    QueueCancelled { storage_failed: bool },
    /// The submission's receipt was settled.
    SubmissionSettled,
}

/// The work a step asks for.
#[derive(Clone, Copy, Debug, PartialEq, Eq, Structural)]
pub enum PendingWork {
    /// Nothing: the outcome was not waited for.
    Nothing,
    /// Supervise the invocation.
    Supervise,
    /// Ask history whether the invocation was recorded cancelled.
    CheckCancellation,
    /// Save the result.
    Finish,
    /// Ask history for the settlement cause.
    ReadHistory,
    /// Save the settlement evidence: cancelled with the owner's stop, or settled.
    RecordSettlement { cancelled: bool },
    /// Cancel the rest of the queue, with the owner's stop when there is one.
    CancelQueue,
    /// Settle the receipt with the result and the storage failures beside it.
    SettleSubmission,
}

/// The state a run starts in, once its input is activated.
pub open spec fn pending_start() -> PendingRun {
    PendingRun {
        phase: PendingPhase::RecordingDispatch,
        dispatch_failed: false,
        result_failed: false,
        stopped: false,
        finish_failed: false,
        settlement_failed: false,
        queue_failed: false,
    }
}

/// Whether the run's result is a failure once its evidence is saved.
pub open spec fn run_failed(p: PendingRun) -> bool {
    p.result_failed || p.finish_failed || p.settlement_failed
}

/// After the settlement evidence: a failed run stops the rest of the queue, and
/// then the receipt settles.
pub open spec fn after_settlement(p: PendingRun) -> (PendingRun, PendingWork) {
    if run_failed(p) {
        (PendingRun { phase: PendingPhase::CancellingQueue, ..p }, PendingWork::CancelQueue)
    } else {
        (PendingRun { phase: PendingPhase::SettlingSubmission, ..p }, PendingWork::SettleSubmission)
    }
}

/// After the result was saved: a stopped input is recorded cancelled; a failed
/// dispatch is recorded settled as such; otherwise history gives the cause.
pub open spec fn after_finish(p: PendingRun) -> (PendingRun, PendingWork) {
    if p.stopped || p.dispatch_failed {
        (
            PendingRun { phase: PendingPhase::RecordingSettlement, ..p },
            PendingWork::RecordSettlement { cancelled: p.stopped },
        )
    } else {
        (PendingRun { phase: PendingPhase::ReadingHistory, ..p }, PendingWork::ReadHistory)
    }
}

/// The next state and the work to do after `e` in state `p`. An outcome the run
/// does not wait for in `p` changes nothing.
pub open spec fn pending_transition(p: PendingRun, e: PendingEvent) -> (PendingRun, PendingWork) {
    match (p.phase, e) {
        (PendingPhase::RecordingDispatch, PendingEvent::DispatchRecorded { saved }) => if saved {
            (PendingRun { phase: PendingPhase::Supervising, ..p }, PendingWork::Supervise)
        } else {
            (
                PendingRun { phase: PendingPhase::Finishing, dispatch_failed: true, result_failed: true, ..p },
                PendingWork::Finish,
            )
        },
        (PendingPhase::Supervising, PendingEvent::Supervised { started, failed, closed, owner_stopped }) => if !started
            || closed {
            (
                PendingRun { phase: PendingPhase::Finishing, result_failed: failed, stopped: owner_stopped, ..p },
                PendingWork::Finish,
            )
        } else {
            (
                PendingRun { phase: PendingPhase::CheckingCancellation, result_failed: failed, ..p },
                PendingWork::CheckCancellation,
            )
        },
        (PendingPhase::CheckingCancellation, PendingEvent::CancellationChecked { cancelled, owner_stopped }) => (
            PendingRun { phase: PendingPhase::Finishing, stopped: cancelled && owner_stopped, ..p },
            PendingWork::Finish,
        ),
        (PendingPhase::Finishing, PendingEvent::Finished { saved }) => after_finish(
            PendingRun { finish_failed: !saved, ..p },
        ),
        (PendingPhase::ReadingHistory, PendingEvent::HistoryRead { ok }) => if ok {
            (
                PendingRun { phase: PendingPhase::RecordingSettlement, ..p },
                PendingWork::RecordSettlement { cancelled: false },
            )
        } else {
            after_settlement(PendingRun { settlement_failed: true, ..p })
        },
        (PendingPhase::RecordingSettlement, PendingEvent::SettlementRecorded { saved }) => after_settlement(
            PendingRun { settlement_failed: !saved, ..p },
        ),
        (PendingPhase::CancellingQueue, PendingEvent::QueueCancelled { storage_failed }) => (
            PendingRun { phase: PendingPhase::SettlingSubmission, queue_failed: storage_failed, ..p },
            PendingWork::SettleSubmission,
        ),
        (PendingPhase::SettlingSubmission, PendingEvent::SubmissionSettled) => (
            PendingRun { phase: PendingPhase::Done, ..p },
            PendingWork::Nothing,
        ),
        _ => (p, PendingWork::Nothing),
    }
}

fn settled_next(p: PendingRun) -> (r: (PendingRun, PendingWork))
    ensures
        r == after_settlement(p),
{
    if p.result_failed || p.finish_failed || p.settlement_failed {
        (PendingRun { phase: PendingPhase::CancellingQueue, ..p }, PendingWork::CancelQueue)
    } else {
        (PendingRun { phase: PendingPhase::SettlingSubmission, ..p }, PendingWork::SettleSubmission)
    }
}

fn finished_next(p: PendingRun) -> (r: (PendingRun, PendingWork))
    ensures
        r == after_finish(p),
{
    if p.stopped || p.dispatch_failed {
        (
            PendingRun { phase: PendingPhase::RecordingSettlement, ..p },
            PendingWork::RecordSettlement { cancelled: p.stopped },
        )
    } else {
        (PendingRun { phase: PendingPhase::ReadingHistory, ..p }, PendingWork::ReadHistory)
    }
}

/// Takes the run from `p` past the outcome `e`: the next state, and the work to
/// do; see [`pending_transition`].
pub fn pending_run_step(p: PendingRun, e: PendingEvent) -> (r: (PendingRun, PendingWork))
    ensures
        r == pending_transition(p, e),
{
    match (p.phase, e) {
        (PendingPhase::RecordingDispatch, PendingEvent::DispatchRecorded { saved }) => if saved {
            (PendingRun { phase: PendingPhase::Supervising, ..p }, PendingWork::Supervise)
        } else {
            (
                PendingRun { phase: PendingPhase::Finishing, dispatch_failed: true, result_failed: true, ..p },
                PendingWork::Finish,
            )
        },
        (PendingPhase::Supervising, PendingEvent::Supervised { started, failed, closed, owner_stopped }) => if !started
            || closed {
            (
                PendingRun { phase: PendingPhase::Finishing, result_failed: failed, stopped: owner_stopped, ..p },
                PendingWork::Finish,
            )
        } else {
            (
                PendingRun { phase: PendingPhase::CheckingCancellation, result_failed: failed, ..p },
                PendingWork::CheckCancellation,
            )
        },
        (PendingPhase::CheckingCancellation, PendingEvent::CancellationChecked { cancelled, owner_stopped }) => (
            PendingRun { phase: PendingPhase::Finishing, stopped: cancelled && owner_stopped, ..p },
            PendingWork::Finish,
        ),
        (PendingPhase::Finishing, PendingEvent::Finished { saved }) => finished_next(
            PendingRun { finish_failed: !saved, ..p },
        ),
        (PendingPhase::ReadingHistory, PendingEvent::HistoryRead { ok }) => if ok {
            (
                PendingRun { phase: PendingPhase::RecordingSettlement, ..p },
                PendingWork::RecordSettlement { cancelled: false },
            )
        } else {
            settled_next(PendingRun { settlement_failed: true, ..p })
        },
        (PendingPhase::RecordingSettlement, PendingEvent::SettlementRecorded { saved }) => settled_next(
            PendingRun { settlement_failed: !saved, ..p },
        ),
        (PendingPhase::CancellingQueue, PendingEvent::QueueCancelled { storage_failed }) => (
            PendingRun { phase: PendingPhase::SettlingSubmission, queue_failed: storage_failed, ..p },
            PendingWork::SettleSubmission,
        ),
        (PendingPhase::SettlingSubmission, PendingEvent::SubmissionSettled) => (
            PendingRun { phase: PendingPhase::Done, ..p },
            PendingWork::Nothing,
        ),
        _ => (p, PendingWork::Nothing),
    }
}

impl PendingRun {
    /// The state a run starts in: saving its dispatch evidence.
    pub fn start() -> (r: Self)
        ensures
            r == pending_start(),
    {
        PendingRun {
            phase: PendingPhase::RecordingDispatch,
            dispatch_failed: false,
            result_failed: false,
            stopped: false,
            finish_failed: false,
            settlement_failed: false,
            queue_failed: false,
        }
    }
}

/// The receipt of a run: its result beside the first failure to save its result
/// or settlement evidence, and then beside the failure to save the queue's
/// cancellation.
pub open spec fn pending_outcome(
    result: Result<ExecutionOutcome, AgentError>,
    evidence_failure: Option<StorageError>,
    queue_failure: Option<StorageError>,
) -> Result<ExecutionOutcome, AgentError> {
    let kept = match evidence_failure {
        None => result,
        Some(e) => Err(AgentError::StorageAfterExecution { error: e, execution_result: Box::new(result) }),
    };
    match queue_failure {
        Some(e) => Err(AgentError::StorageAfterExecution { error: e, execution_result: Box::new(kept) }),
        None => kept,
    }
}

/// Assembles the receipt of a run; see [`pending_outcome`]. `finish_failure` is
/// preferred to `settlement_failure` as the evidence failure.
pub fn pending_result(
    result: Result<ExecutionOutcome, AgentError>,
    finish_failure: Option<StorageError>,
    settlement_failure: Option<StorageError>,
    queue_failure: Option<StorageError>,
) -> (r: Result<ExecutionOutcome, AgentError>)
    ensures
        r == pending_outcome(
            result,
            match finish_failure {
                Some(e) => Some(e),
                None => settlement_failure,
            },
            queue_failure,
        ),
{
    let evidence = match finish_failure {
        Some(e) => Some(e),
        None => settlement_failure,
    };
    let kept = match evidence {
        None => result,
        Some(e) => Err(AgentError::StorageAfterExecution { error: e, execution_result: Box::new(result) }),
    };
    match queue_failure {
        Some(e) => Err(AgentError::StorageAfterExecution { error: e, execution_result: Box::new(kept) }),
        None => kept,
    }
}

/// Whether `p` can arise from [`pending_start`]: an input whose dispatch
/// evidence failed never ran and has a failed result.
pub open spec fn pending_reachable(p: PendingRun) -> bool {
    &&& p.dispatch_failed ==> p.result_failed && !p.stopped
    &&& p.phase == PendingPhase::CheckingCancellation ==> !p.dispatch_failed
    &&& (p.phase == PendingPhase::RecordingDispatch || p.phase == PendingPhase::Supervising) ==> !p.dispatch_failed
        && !p.result_failed && !p.stopped && !p.finish_failed && !p.settlement_failed
}

/// Every step keeps the run in the states that can arise from its start.
pub proof fn law_pending_steps_stay_reachable(p: PendingRun, e: PendingEvent)
    requires
        pending_reachable(p),
    ensures
        pending_reachable(pending_transition(p, e).0),
        pending_reachable(pending_start()),
{
}

/// A run whose dispatch evidence failed never supervises its input, and settles
/// as a failed dispatch rather than as cancelled.
pub proof fn law_failed_dispatch_never_runs(p: PendingRun, e: PendingEvent)
    requires
        pending_reachable(p),
        p.dispatch_failed,
    ensures
        pending_transition(p, e).1 != PendingWork::Supervise,
        pending_transition(p, e).1 != (PendingWork::RecordSettlement { cancelled: true }),
{
}

/// Never blindly dispatch after a failure: a run whose result or evidence failed
/// cancels the rest of the queue before its receipt settles, and a clean run
/// settles without touching the queue.
pub proof fn law_failed_runs_stop_the_queue(p: PendingRun, e: PendingEvent)
    ensures
        ({
            let r = pending_transition(p, e);
            &&& r.1 == PendingWork::CancelQueue ==> run_failed(r.0)
            &&& (r.1 == PendingWork::SettleSubmission && p.phase != PendingPhase::CancellingQueue) ==> !run_failed(
                r.0,
            )
        }),
{
}

/// An input stopped before execution started, or whose run ended Closed, is
/// recorded cancelled exactly when its owner has a stop.
pub proof fn law_owner_stop_settles_unstarted_inputs(started: bool, failed: bool, owner_stopped: bool)
    ensures
        ({
            let p = pending_transition(pending_start(), PendingEvent::DispatchRecorded { saved: true }).0;
            let q = pending_transition(
                p,
                PendingEvent::Supervised { started: false, failed, closed: false, owner_stopped },
            ).0;
            let r = pending_transition(q, PendingEvent::Finished { saved: true });
            r.1 == if owner_stopped {
                PendingWork::RecordSettlement { cancelled: true }
            } else {
                PendingWork::ReadHistory
            }
        }),
{
}

} // verus!
