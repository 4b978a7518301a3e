//! The decisions around one invocation's observation loop: admitting it before
//! dispatch (save the input, check the attachment and the input, run the before
//! hooks, prepare the provider and drain what it left ready), and settling it
//! after the loop (record an undispatched stop, fail a contradicted run, save the
//! result, run the after hooks, settle the receipt). Each step takes the task's
//! state and the outcome of the last piece of outside work to the next state and
//! the work to do.
use super::error_limits::bounded_as;
use super::settlement::after_storage;
use super::AgentError;
use crate::agent_execution::sessions::StorageError;
use crate::domain::executions::ExecutionOutcome;
use vstd::prelude::*;

verus! {

/// Where an invocation's admission stands.
#[derive(Clone, Copy, Debug, PartialEq, Eq, Structural)]
pub enum AdmissionPhase {
    /// Saving the input; a queued input was saved before.
    Saving,
    /// Taking the attached provider.
    Attaching,
    /// Validating the input against the attached session.
    Validating,
    /// Running the before hooks.
    RunningBeforeHooks,
    /// Preparing the provider for the invocation.
    Preparing,
    /// Draining observations a prior invocation left ready.
    Draining,
    /// Recording the stop of an input that never reached the provider.
    RecordingStop,
    /// Saving the failed admission's result.
    Finishing,
    /// Running the after hooks on the failed admission.
    RunningAfterHooks,
    /// Settling the receipt of a directly invoked input.
    SettlingSubmission,
    /// The input may be dispatched.
    Dispatching,
    /// The admission is answered with its failure.
    Done,
}

/// Which check refused the invocation before dispatch.
#[derive(Clone, Copy, Debug, PartialEq, Eq, Structural)]
pub enum AdmissionFailure {
    /// No usable attachment, or the attached session refused the input.
    Refused,
    /// A before hook failed.
    BeforeHook,
    /// Preparation, or the drain of ready observations, failed.
    Preparation,
}

/// An invocation's admission state.
#[derive(Clone, Copy, Debug, PartialEq, Eq, Structural)]
pub struct InvocationAdmission {
    /// Where the admission stands.
    pub phase: AdmissionPhase,
    /// The queue runner saved the input before; its receipt is the runner's.
    pub saved_before: bool,
    /// The check that refused it, once one did.
    pub failure: Option<AdmissionFailure>,
    /// Recording the undispatched stop failed to save.
    pub stop_failed: bool,
    /// Saving the result failed.
    pub finish_failed: bool,
}

/// The outcome of the outside work an admission asked for.
#[derive(Clone, Copy, Debug, PartialEq, Eq, Structural)]
pub enum AdmissionEvent {
    /// The input was saved, or not.
    Saved { ok: bool },
    /// The attached provider was taken, or there was none to take.
    Attached { ok: bool },
    /// The attached session accepted the input, or refused it.
    Validated { ok: bool },
    /// Every before hook passed, or one failed.
    BeforeHooksRan { ok: bool },
    /// Preparation succeeded, or failed.
    Prepared { ok: bool },
    /// The ready observations were drained, or the drain failed.
    Drained { ok: bool },
    /// The undispatched stop was recorded, or failed to save.
    StopRecorded { saved: bool },
    /// The result was saved, or not.
    Finished { saved: bool },
    /// The after hooks ran.
    AfterHooksRan,
    /// The receipt was settled.
    SubmissionSettled,
}

/// The work an admission step asks for.
#[derive(Clone, Copy, Debug, PartialEq, Eq, Structural)]
pub enum AdmissionWork {
    /// Nothing: the outcome was not waited for.
    Nothing,
    /// Save the input with its caller.
    Save,
    /// Take the attached provider for this work.
    Attach,
    /// Validate the input against the attached session.
    Validate,
    /// Run the before hooks.
    RunBeforeHooks,
    /// Prepare the provider.
    Prepare,
    /// Drain the observations already ready.
    Drain,
    /// Record the owner's stop of the undispatched input.
    RecordStop,
    /// Save the failed admission's result.
    Finish,
    /// Run the after hooks on the result.
    RunAfterHooks,
    /// Settle the receipt with the result.
    SettleSubmission,
    /// Dispatch the input and run the observation loop.
    Dispatch,
    /// Answer with the result.
    Answer,
}

/// The state an admission starts in, and its first work: a queued input was
/// saved by the runner, a direct one is saved first.
pub open spec fn admission_start(saved_before: bool) -> (InvocationAdmission, AdmissionWork) {
    (
        InvocationAdmission {
            phase: if saved_before {
                AdmissionPhase::Attaching
            } else {
                AdmissionPhase::Saving
            },
            saved_before,
            failure: None,
            stop_failed: false,
            finish_failed: false,
        },
        if saved_before {
            AdmissionWork::Attach
        } else {
            AdmissionWork::Save
        },
    )
}

/// The admission was refused by `f`: record its undispatched stop first.
pub open spec fn refusing(s: InvocationAdmission, f: AdmissionFailure) -> (InvocationAdmission, AdmissionWork) {
    (
        InvocationAdmission { phase: AdmissionPhase::RecordingStop, failure: Some(f), ..s },
        AdmissionWork::RecordStop,
    )
}

/// After the failed result was saved: a refused direct input settles its receipt,
/// a refused queued one leaves that to the runner, a failed before hook answers at
/// once, and a failed preparation still runs the after hooks.
pub open spec fn after_failed_finish(s: InvocationAdmission) -> (InvocationAdmission, AdmissionWork) {
    match s.failure {
        Some(AdmissionFailure::Preparation) => (
            InvocationAdmission { phase: AdmissionPhase::RunningAfterHooks, ..s },
            AdmissionWork::RunAfterHooks,
        ),
        Some(AdmissionFailure::Refused) => if s.saved_before {
            (InvocationAdmission { phase: AdmissionPhase::Done, ..s }, AdmissionWork::Answer)
        } else {
            (
                InvocationAdmission { phase: AdmissionPhase::SettlingSubmission, ..s },
                AdmissionWork::SettleSubmission,
            )
        },
        _ => (InvocationAdmission { phase: AdmissionPhase::Done, ..s }, AdmissionWork::Answer),
    }
}

/// The next state and the work to do after `e` in state `s`. An outcome the
/// admission does not wait for in `s` changes nothing.
pub open spec fn admission_transition(s: InvocationAdmission, e: AdmissionEvent) -> (
    InvocationAdmission,
    AdmissionWork,
) {
    match (s.phase, e) {
        (AdmissionPhase::Saving, AdmissionEvent::Saved { ok }) => if ok {
            (InvocationAdmission { phase: AdmissionPhase::Attaching, ..s }, AdmissionWork::Attach)
        } else {
            (InvocationAdmission { phase: AdmissionPhase::Done, ..s }, AdmissionWork::Answer)
        },
        (AdmissionPhase::Attaching, AdmissionEvent::Attached { ok }) => if ok {
            (InvocationAdmission { phase: AdmissionPhase::Validating, ..s }, AdmissionWork::Validate)
        } else {
            refusing(s, AdmissionFailure::Refused)
        },
        (AdmissionPhase::Validating, AdmissionEvent::Validated { ok }) => if ok {
            (
                InvocationAdmission { phase: AdmissionPhase::RunningBeforeHooks, ..s },
                AdmissionWork::RunBeforeHooks,
            )
        } else {
            refusing(s, AdmissionFailure::Refused)
        },
        (AdmissionPhase::RunningBeforeHooks, AdmissionEvent::BeforeHooksRan { ok }) => if ok {
            (InvocationAdmission { phase: AdmissionPhase::Preparing, ..s }, AdmissionWork::Prepare)
        } else {
            refusing(s, AdmissionFailure::BeforeHook)
        },
        (AdmissionPhase::Preparing, AdmissionEvent::Prepared { ok }) => if ok {
            (InvocationAdmission { phase: AdmissionPhase::Draining, ..s }, AdmissionWork::Drain)
        } else {
            refusing(s, AdmissionFailure::Preparation)
        },
        (AdmissionPhase::Draining, AdmissionEvent::Drained { ok }) => if ok {
            (InvocationAdmission { phase: AdmissionPhase::Dispatching, ..s }, AdmissionWork::Dispatch)
        } else {
            refusing(s, AdmissionFailure::Preparation)
        },
        (AdmissionPhase::RecordingStop, AdmissionEvent::StopRecorded { saved }) => (
            InvocationAdmission { phase: AdmissionPhase::Finishing, stop_failed: !saved, ..s },
            AdmissionWork::Finish,
        ),
        (AdmissionPhase::Finishing, AdmissionEvent::Finished { saved }) => after_failed_finish(
            InvocationAdmission { finish_failed: !saved, ..s },
        ),
        (AdmissionPhase::RunningAfterHooks, AdmissionEvent::AfterHooksRan) => (
            InvocationAdmission { phase: AdmissionPhase::Done, ..s },
            AdmissionWork::Answer,
        ),
        (AdmissionPhase::SettlingSubmission, AdmissionEvent::SubmissionSettled) => (
            InvocationAdmission { phase: AdmissionPhase::Done, ..s },
            AdmissionWork::Answer,
        ),
        _ => (s, AdmissionWork::Nothing),
    }
}

fn refuse(s: InvocationAdmission, f: AdmissionFailure) -> (r: (InvocationAdmission, AdmissionWork))
    ensures
        r == refusing(s, f),
{
    (InvocationAdmission { phase: AdmissionPhase::RecordingStop, failure: Some(f), ..s }, AdmissionWork::RecordStop)
}

/// Takes an admission from `s` past the outcome `e`; see [`admission_transition`].
pub fn admission_step(s: InvocationAdmission, e: AdmissionEvent) -> (r: (InvocationAdmission, AdmissionWork))
    ensures
        r == admission_transition(s, e),
{
    match (s.phase, e) {
        (AdmissionPhase::Saving, AdmissionEvent::Saved { ok }) => if ok {
            (InvocationAdmission { phase: AdmissionPhase::Attaching, ..s }, AdmissionWork::Attach)
        } else {
            (InvocationAdmission { phase: AdmissionPhase::Done, ..s }, AdmissionWork::Answer)
        },
        (AdmissionPhase::Attaching, AdmissionEvent::Attached { ok }) => if ok {
            (InvocationAdmission { phase: AdmissionPhase::Validating, ..s }, AdmissionWork::Validate)
        } else {
            refuse(s, AdmissionFailure::Refused)
        },
        (AdmissionPhase::Validating, AdmissionEvent::Validated { ok }) => if ok {
            (
                InvocationAdmission { phase: AdmissionPhase::RunningBeforeHooks, ..s },
                AdmissionWork::RunBeforeHooks,
            )
        } else {
            refuse(s, AdmissionFailure::Refused)
        },
        (AdmissionPhase::RunningBeforeHooks, AdmissionEvent::BeforeHooksRan { ok }) => if ok {
            (InvocationAdmission { phase: AdmissionPhase::Preparing, ..s }, AdmissionWork::Prepare)
        } else {
            refuse(s, AdmissionFailure::BeforeHook)
        },
        (AdmissionPhase::Preparing, AdmissionEvent::Prepared { ok }) => if ok {
            (InvocationAdmission { phase: AdmissionPhase::Draining, ..s }, AdmissionWork::Drain)
        } else {
            refuse(s, AdmissionFailure::Preparation)
        },
        (AdmissionPhase::Draining, AdmissionEvent::Drained { ok }) => if ok {
            (InvocationAdmission { phase: AdmissionPhase::Dispatching, ..s }, AdmissionWork::Dispatch)
        } else {
            refuse(s, AdmissionFailure::Preparation)
        },
        (AdmissionPhase::RecordingStop, AdmissionEvent::StopRecorded { saved }) => (
            InvocationAdmission { phase: AdmissionPhase::Finishing, stop_failed: !saved, ..s },
            AdmissionWork::Finish,
        ),
        (AdmissionPhase::Finishing, AdmissionEvent::Finished { saved }) => {
            let t = InvocationAdmission { finish_failed: !saved, ..s };
            match t.failure {
                Some(AdmissionFailure::Preparation) => (
                    InvocationAdmission { phase: AdmissionPhase::RunningAfterHooks, ..t },
                    AdmissionWork::RunAfterHooks,
                ),
                Some(AdmissionFailure::Refused) => if t.saved_before {
                    (InvocationAdmission { phase: AdmissionPhase::Done, ..t }, AdmissionWork::Answer)
                } else {
                    (
                        InvocationAdmission { phase: AdmissionPhase::SettlingSubmission, ..t },
                        AdmissionWork::SettleSubmission,
                    )
                },
                _ => (InvocationAdmission { phase: AdmissionPhase::Done, ..t }, AdmissionWork::Answer),
            }
        },
        (AdmissionPhase::RunningAfterHooks, AdmissionEvent::AfterHooksRan)
        | (AdmissionPhase::SettlingSubmission, AdmissionEvent::SubmissionSettled) => (
            InvocationAdmission { phase: AdmissionPhase::Done, ..s },
            AdmissionWork::Answer,
        ),
        _ => (s, AdmissionWork::Nothing),
    }
}

impl InvocationAdmission {
    /// The state an admission starts in and its first work; see [`admission_start`].
    pub fn start(saved_before: bool) -> (r: (Self, AdmissionWork))
        ensures
            r == admission_start(saved_before),
    {
        (
            InvocationAdmission {
                phase: if saved_before {
                    AdmissionPhase::Attaching
                } else {
                    AdmissionPhase::Saving
                },
                saved_before,
                failure: None,
                stop_failed: false,
                finish_failed: false,
            },
            if saved_before {
                AdmissionWork::Attach
            } else {
                AdmissionWork::Save
            },
        )
    }
}

/// The failure a refused admission answers with: the refusal, beside a failure
/// to record its stop (bounded), and then beside a failure to save the result.
pub open spec fn refusal_outcome(
    error: AgentError,
    stop_failure: Option<StorageError>,
    finish_failure: Option<StorageError>,
    r: Result<ExecutionOutcome, AgentError>,
) -> bool {
    exists|kept: AgentError|
        {
            &&& match stop_failure {
                None => kept == error,
                Some(s) => bounded_as(
                    AgentError::StorageAfterExecution { error: s, execution_result: Box::new(Err(error)) },
                    kept,
                ),
            }
            &&& r == after_storage(Err(kept), finish_failure)
        }
}

/// Assembles the failure a refused admission answers with; see [`refusal_outcome`].
pub fn refusal_result(
    error: AgentError,
    stop_failure: Option<StorageError>,
    finish_failure: Option<StorageError>,
) -> (r: Result<ExecutionOutcome, AgentError>)
    ensures
        refusal_outcome(error, stop_failure, finish_failure, r),
{
    let ghost original = error;
    let kept = match stop_failure {
        None => error,
        Some(s) => AgentError::StorageAfterExecution { error: s, execution_result: Box::new(Err(error)) }.bounded(),
    };
    let r = super::settlement::with_storage_failure(Err(kept), finish_failure);
    assert(refusal_outcome(original, stop_failure, finish_failure, r));
    r
}

/// Whether `s` can arise from [`admission_start`]: a refusal is known only once
/// the admission is recording, saving or answering it.
pub open spec fn admission_reachable(s: InvocationAdmission) -> bool {
    s.failure is Some ==> (s.phase == AdmissionPhase::RecordingStop || s.phase == AdmissionPhase::Finishing
        || s.phase == AdmissionPhase::RunningAfterHooks || s.phase == AdmissionPhase::SettlingSubmission
        || s.phase == AdmissionPhase::Done)
}

/// Every step keeps an admission in the states that can arise from its start.
pub proof fn law_admission_steps_stay_reachable(s: InvocationAdmission, e: AdmissionEvent, saved_before: bool)
    requires
        admission_reachable(s),
    ensures
        admission_reachable(admission_transition(s, e).0),
        admission_reachable(admission_start(saved_before).0),
{
}

/// A failed before hook never prepares, dispatches or runs the after hooks: its
/// stop is recorded, its result saved, and it is answered. A failed preparation
/// or drain is recorded and saved too, and then runs the after hooks. Only a
/// drained preparation dispatches.
pub proof fn law_admission_failures_are_settled_before_dispatch(s: InvocationAdmission, e: AdmissionEvent)
    requires
        admission_reachable(s),
    ensures
        ({
            let r = admission_transition(s, e);
            &&& s.failure == Some(AdmissionFailure::BeforeHook) ==> r.1 != AdmissionWork::Prepare && r.1
                != AdmissionWork::Dispatch && r.1 != AdmissionWork::RunAfterHooks
            &&& r.1 == AdmissionWork::Dispatch ==> s.phase == AdmissionPhase::Draining && r.0.failure is None
            &&& r.1 == AdmissionWork::RunAfterHooks ==> r.0.failure == Some(AdmissionFailure::Preparation)
            &&& (r.0.failure is Some && s.failure is None) ==> r.1 == AdmissionWork::RecordStop
        }),
{
}

/// Where an invocation's settlement after its loop stands.
#[derive(Clone, Copy, Debug, PartialEq, Eq, Structural)]
pub enum SettlementPhase {
    /// Recording the stop of an input that never reached the provider.
    RecordingStop,
    /// Shutting the session down: the terminal observation contradicts the settlement.
    ShuttingDown,
    /// Saving the result.
    Finishing,
    /// Running the after hooks.
    RunningAfterHooks,
    /// Settling the receipt.
    SettlingSubmission,
    /// Answered.
    Done,
}

/// An invocation's settlement state.
#[derive(Clone, Copy, Debug, PartialEq, Eq, Structural)]
pub struct InvocationSettlement {
    /// Where the settlement stands.
    pub phase: SettlementPhase,
    /// The loop already recorded an observation failure.
    pub observation_failed: bool,
    /// The terminal observation contradicts the provider's settlement.
    pub contradicted: bool,
    /// Recording the undispatched stop failed to save.
    pub stop_failed: bool,
    /// Saving the result failed.
    pub finish_failed: bool,
}

/// The outcome of the outside work a settlement asked for.
#[derive(Clone, Copy, Debug, PartialEq, Eq, Structural)]
pub enum SettlementEvent {
    /// The undispatched stop was recorded, or failed to save.
    StopRecorded { saved: bool },
    /// The shutdown finished.
    ShutDown,
    /// The result was saved, or not.
    Finished { saved: bool },
    /// The after hooks ran.
    AfterHooksRan,
    /// The receipt was settled.
    SubmissionSettled,
}

/// The work a settlement step asks for.
#[derive(Clone, Copy, Debug, PartialEq, Eq, Structural)]
pub enum SettlementWork {
    /// Nothing: the outcome was not waited for.
    Nothing,
    /// Record the owner's stop of the undispatched input.
    RecordStop,
    /// Shut the session down, and fail the run as contradicted.
    ShutDown,
    /// Save the result.
    Finish,
    /// Run the after hooks on the result.
    RunAfterHooks,
    /// Settle the receipt with the result.
    SettleSubmission,
    /// Answer with the result.
    Answer,
}

/// After the stop: a contradicted run without an earlier observation failure is
/// failed and the session shut down; otherwise the result is saved.
pub open spec fn after_stop(s: InvocationSettlement) -> (InvocationSettlement, SettlementWork) {
    if s.contradicted && !s.observation_failed {
        (InvocationSettlement { phase: SettlementPhase::ShuttingDown, ..s }, SettlementWork::ShutDown)
    } else {
        (InvocationSettlement { phase: SettlementPhase::Finishing, ..s }, SettlementWork::Finish)
    }
}

/// The state a settlement starts in and its first work: an input that never
/// started records its stop first.
pub open spec fn settlement_start(started: bool, observation_failed: bool, contradicted: bool) -> (
    InvocationSettlement,
    SettlementWork,
) {
    let s = InvocationSettlement {
        phase: SettlementPhase::RecordingStop,
        observation_failed,
        contradicted,
        stop_failed: false,
        finish_failed: false,
    };
    if !started {
        (s, SettlementWork::RecordStop)
    } else {
        after_stop(s)
    }
}

/// The next state and the work to do after `e` in state `s`. An outcome the
/// settlement does not wait for in `s` changes nothing.
pub open spec fn settlement_transition(s: InvocationSettlement, e: SettlementEvent) -> (
    InvocationSettlement,
    SettlementWork,
) {
    match (s.phase, e) {
        (SettlementPhase::RecordingStop, SettlementEvent::StopRecorded { saved }) => after_stop(
            InvocationSettlement { stop_failed: !saved, ..s },
        ),
        (SettlementPhase::ShuttingDown, SettlementEvent::ShutDown) => (
            InvocationSettlement { phase: SettlementPhase::Finishing, observation_failed: true, ..s },
            SettlementWork::Finish,
        ),
        (SettlementPhase::Finishing, SettlementEvent::Finished { saved }) => (
            InvocationSettlement { phase: SettlementPhase::RunningAfterHooks, finish_failed: !saved, ..s },
            SettlementWork::RunAfterHooks,
        ),
        (SettlementPhase::RunningAfterHooks, SettlementEvent::AfterHooksRan) => (
            InvocationSettlement { phase: SettlementPhase::SettlingSubmission, ..s },
            SettlementWork::SettleSubmission,
        ),
        (SettlementPhase::SettlingSubmission, SettlementEvent::SubmissionSettled) => (
            InvocationSettlement { phase: SettlementPhase::Done, ..s },
            SettlementWork::Answer,
        ),
        _ => (s, SettlementWork::Nothing),
    }
}

fn stop_next(s: InvocationSettlement) -> (r: (InvocationSettlement, SettlementWork))
    ensures
        r == after_stop(s),
{
    if s.contradicted && !s.observation_failed {
        (InvocationSettlement { phase: SettlementPhase::ShuttingDown, ..s }, SettlementWork::ShutDown)
    } else {
        (InvocationSettlement { phase: SettlementPhase::Finishing, ..s }, SettlementWork::Finish)
    }
}

impl InvocationSettlement {
    /// The state a settlement starts in and its first work; see [`settlement_start`].
    pub fn start(started: bool, observation_failed: bool, contradicted: bool) -> (r: (Self, SettlementWork))
        ensures
            r == settlement_start(started, observation_failed, contradicted),
    {
        let s = InvocationSettlement {
            phase: SettlementPhase::RecordingStop,
            observation_failed,
            contradicted,
            stop_failed: false,
            finish_failed: false,
        };
        if !started {
            (s, SettlementWork::RecordStop)
        } else {
            stop_next(s)
        }
    }
}

/// Takes a settlement from `s` past the outcome `e`; see [`settlement_transition`].
pub fn settlement_step(s: InvocationSettlement, e: SettlementEvent) -> (r: (InvocationSettlement, SettlementWork))
    ensures
        r == settlement_transition(s, e),
{
    match (s.phase, e) {
        (SettlementPhase::RecordingStop, SettlementEvent::StopRecorded { saved }) => stop_next(
            InvocationSettlement { stop_failed: !saved, ..s },
        ),
        (SettlementPhase::ShuttingDown, SettlementEvent::ShutDown) => (
            InvocationSettlement { phase: SettlementPhase::Finishing, observation_failed: true, ..s },
            SettlementWork::Finish,
        ),
        (SettlementPhase::Finishing, SettlementEvent::Finished { saved }) => (
            InvocationSettlement { phase: SettlementPhase::RunningAfterHooks, finish_failed: !saved, ..s },
            SettlementWork::RunAfterHooks,
        ),
        (SettlementPhase::RunningAfterHooks, SettlementEvent::AfterHooksRan) => (
            InvocationSettlement { phase: SettlementPhase::SettlingSubmission, ..s },
            SettlementWork::SettleSubmission,
        ),
        (SettlementPhase::SettlingSubmission, SettlementEvent::SubmissionSettled) => (
            InvocationSettlement { phase: SettlementPhase::Done, ..s },
            SettlementWork::Answer,
        ),
        _ => (s, SettlementWork::Nothing),
    }
}

/// Every dispatched invocation saves its result, then runs its after hooks, then
/// settles its receipt, in that order; a contradicted run is failed and the
/// session shut down before its result is saved.
pub proof fn law_settlement_saves_then_hooks_then_settles(s: InvocationSettlement, e: SettlementEvent)
    ensures
        ({
            let r = settlement_transition(s, e);
            &&& r.1 == SettlementWork::RunAfterHooks ==> s.phase == SettlementPhase::Finishing
            &&& r.1 == SettlementWork::SettleSubmission ==> s.phase == SettlementPhase::RunningAfterHooks
            &&& r.1 == SettlementWork::Finish ==> (s.phase == SettlementPhase::ShuttingDown || !(s.contradicted
                && !s.observation_failed))
        }),
        settlement_start(true, false, true).1 == SettlementWork::ShutDown,
        settlement_start(false, true, true).1 == SettlementWork::RecordStop,
{
}

} // verus!
