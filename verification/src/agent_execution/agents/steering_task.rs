//! The decisions of delivering one steering input: recover a retry from its saved
//! record, admit and save a new input, route it, deliver it natively or queue it
//! for the next boundary, record what happened, and stop the agent when that
//! evidence cannot be saved. [`steering_step`] takes the delivery's state and the
//! outcome of the last piece of outside work to the next state and the work to do.
use super::AgentError;
use crate::agent_execution::sessions::StorageError;
use vstd::prelude::*;

verus! {

/// Where the delivery stands.
#[derive(Clone, Copy, Debug, PartialEq, Eq, Structural)]
pub enum SteeringPhase {
    /// Looking for a saved submission under the same identity.
    Recovering,
    /// Validating the input and admitting it as waiting work.
    Admitting,
    /// Saving the input with its submission evidence.
    Saving,
    /// Routing the saved input.
    Routing,
    /// Asking the provider to inject the input into its target.
    Delivering,
    /// Saving the injection evidence.
    RecordingInjection,
    /// Stopping the agent after the injection evidence failed to save.
    StoppingAfterInjection,
    /// Queueing the input for the next invocation boundary.
    Enqueueing,
    /// Saving the failed delivery's result.
    FinishingFailure,
    /// Saving the failed delivery's settlement evidence.
    RecordingFailure,
    /// Stopping the agent after the failure evidence failed to save.
    StoppingAfterFailure,
    /// Settling inputs a stop left pending.
    SettlingStopped,
    /// Settling the submission's receipt with the failure.
    SettlingSubmission,
    /// The delivery is answered.
    Done,
}

/// How the saved input was routed.
#[derive(Clone, Copy, Debug, PartialEq, Eq, Structural)]
pub enum RouteTaken {
    /// Admission closed meanwhile.
    Refused,
    /// It waits for the next invocation boundary.
    Queue,
    /// The provider is asked to inject it.
    Native,
}

/// What native delivery returned.
#[derive(Clone, Copy, Debug, PartialEq, Eq, Structural)]
pub enum NativeOutcome {
    /// The provider injected the input.
    Injected,
    /// The provider asked for a new invocation instead.
    PromptRequired,
    /// Delivery failed.
    Failed,
}

/// The delivery's own state.
#[derive(Clone, Copy, Debug, PartialEq, Eq, Structural)]
pub struct SteeringTask {
    /// Where the delivery stands.
    pub phase: SteeringPhase,
    /// A saved submission answered the retry.
    pub recovered: bool,
    /// The input was refused before it was saved.
    pub refused_early: bool,
    /// The provider injected the input.
    pub injected: bool,
    /// The input waits for the next boundary.
    pub queued: bool,
    /// Delivery failed.
    pub failed: bool,
    /// Saving evidence of the delivery failed.
    pub storage_failed: bool,
    /// Settling inputs a stop left pending failed to save.
    pub drain_failed: bool,
}

/// The outcome of the outside work the delivery asked for.
#[derive(Clone, Copy, Debug, PartialEq, Eq, Structural)]
pub enum SteeringEvent {
    /// The saved submission was found, or not.
    Recovered { found: bool },
    /// The input passed validation and admission, or not.
    Admitted { ok: bool },
    /// The input was saved, or not.
    Saved { ok: bool },
    /// The input was routed.
    Routed(RouteTaken),
    /// Native delivery returned.
    Delivered(NativeOutcome),
    /// The injection evidence was saved, or not.
    InjectionRecorded { saved: bool },
    /// The input was queued for the next boundary.
    Enqueued,
    /// The failed delivery's result was saved, or not.
    FailureFinished { saved: bool },
    /// The failed delivery's settlement evidence was saved, or not.
    FailureRecorded { saved: bool },
    /// The agent was stopped.
    Stopped,
    /// Inputs a stop left pending were settled; whether that failed to save.
    StoppedSettled { storage_failed: bool },
    /// The submission's receipt was settled.
    SubmissionSettled,
}

/// The work a step asks for.
#[derive(Clone, Copy, Debug, PartialEq, Eq, Structural)]
pub enum SteeringWork {
    /// Nothing: the outcome was not waited for.
    Nothing,
    /// Validate the input and admit it as waiting work.
    Admit,
    /// Save the input with its submission evidence.
    Save,
    /// Route the saved input.
    Route,
    /// Ask the provider to inject the input.
    DeliverNative,
    /// Save the injection evidence.
    RecordInjection,
    /// Queue the input for the next boundary and start the runner.
    Enqueue,
    /// Capture the owner's stop, then save the failed delivery's result.
    FinishFailure,
    /// Save the failed delivery's settlement evidence.
    RecordFailure,
    /// Stop the agent after evidence failed to save.
    StopAgent,
    /// Settle inputs a stop left pending.
    SettleStopped,
    /// Settle the submission's receipt with the failure.
    SettleSubmission,
    /// Answer the caller, and keep the receipt of an injection or a failure.
    Answer,
}

/// The state a delivery starts in.
pub open spec fn steering_start() -> SteeringTask {
    SteeringTask {
        phase: SteeringPhase::Recovering,
        recovered: false,
        refused_early: false,
        injected: false,
        queued: false,
        failed: false,
        storage_failed: false,
        drain_failed: false,
    }
}

/// Whether the delivery answers with a failure: delivery failed, or settling the
/// inputs a stop left pending failed to save.
pub open spec fn steering_failed(t: SteeringTask) -> bool {
    t.failed || t.drain_failed
}

/// The delivery failed: save its result first.
pub open spec fn failing_delivery(t: SteeringTask) -> (SteeringTask, SteeringWork) {
    (SteeringTask { phase: SteeringPhase::FinishingFailure, failed: true, ..t }, SteeringWork::FinishFailure)
}

/// The next state and the work to do after `e` in state `t`. An outcome the
/// delivery does not wait for in `t` changes nothing.
pub open spec fn steering_transition(t: SteeringTask, e: SteeringEvent) -> (SteeringTask, SteeringWork) {
    match (t.phase, e) {
        (SteeringPhase::Recovering, SteeringEvent::Recovered { found }) => if found {
            (SteeringTask { phase: SteeringPhase::Done, recovered: true, ..t }, SteeringWork::Answer)
        } else {
            (SteeringTask { phase: SteeringPhase::Admitting, ..t }, SteeringWork::Admit)
        },
        (SteeringPhase::Admitting, SteeringEvent::Admitted { ok }) => if ok {
            (SteeringTask { phase: SteeringPhase::Saving, ..t }, SteeringWork::Save)
        } else {
            (SteeringTask { phase: SteeringPhase::Done, refused_early: true, ..t }, SteeringWork::Answer)
        },
        (SteeringPhase::Saving, SteeringEvent::Saved { ok }) => if ok {
            (SteeringTask { phase: SteeringPhase::Routing, ..t }, SteeringWork::Route)
        } else {
            (SteeringTask { phase: SteeringPhase::Done, refused_early: true, ..t }, SteeringWork::Answer)
        },
        (SteeringPhase::Routing, SteeringEvent::Routed(route)) => match route {
            RouteTaken::Refused => failing_delivery(t),
            RouteTaken::Queue => (SteeringTask { phase: SteeringPhase::Enqueueing, ..t }, SteeringWork::Enqueue),
            RouteTaken::Native => (
                SteeringTask { phase: SteeringPhase::Delivering, ..t },
                SteeringWork::DeliverNative,
            ),
        },
        (SteeringPhase::Delivering, SteeringEvent::Delivered(outcome)) => match outcome {
            NativeOutcome::Injected => (
                SteeringTask { phase: SteeringPhase::RecordingInjection, ..t },
                SteeringWork::RecordInjection,
            ),
            NativeOutcome::PromptRequired => (
                SteeringTask { phase: SteeringPhase::Enqueueing, ..t },
                SteeringWork::Enqueue,
            ),
            NativeOutcome::Failed => failing_delivery(t),
        },
        (SteeringPhase::RecordingInjection, SteeringEvent::InjectionRecorded { saved }) => if saved {
            (
                SteeringTask { phase: SteeringPhase::SettlingStopped, injected: true, ..t },
                SteeringWork::SettleStopped,
            )
        } else {
            (
                SteeringTask { phase: SteeringPhase::StoppingAfterInjection, failed: true, storage_failed: true, ..t },
                SteeringWork::StopAgent,
            )
        },
        (SteeringPhase::StoppingAfterInjection, SteeringEvent::Stopped) => (
            SteeringTask { phase: SteeringPhase::SettlingSubmission, ..t },
            SteeringWork::SettleSubmission,
        ),
        (SteeringPhase::Enqueueing, SteeringEvent::Enqueued) => (
            SteeringTask { phase: SteeringPhase::SettlingStopped, queued: true, ..t },
            SteeringWork::SettleStopped,
        ),
        (SteeringPhase::FinishingFailure, SteeringEvent::FailureFinished { saved }) => (
            SteeringTask { phase: SteeringPhase::RecordingFailure, storage_failed: !saved, ..t },
            SteeringWork::RecordFailure,
        ),
        (SteeringPhase::RecordingFailure, SteeringEvent::FailureRecorded { saved }) => if t.storage_failed || !saved {
            (
                SteeringTask { phase: SteeringPhase::StoppingAfterFailure, storage_failed: true, ..t },
                SteeringWork::StopAgent,
            )
        } else {
            (SteeringTask { phase: SteeringPhase::SettlingStopped, ..t }, SteeringWork::SettleStopped)
        },
        (SteeringPhase::StoppingAfterFailure, SteeringEvent::Stopped) => (
            SteeringTask { phase: SteeringPhase::SettlingStopped, ..t },
            SteeringWork::SettleStopped,
        ),
        (SteeringPhase::SettlingStopped, SteeringEvent::StoppedSettled { storage_failed }) => if t.failed
            || storage_failed {
            (
                SteeringTask { phase: SteeringPhase::SettlingSubmission, drain_failed: storage_failed, ..t },
                SteeringWork::SettleSubmission,
            )
        } else {
            (SteeringTask { phase: SteeringPhase::Done, ..t }, SteeringWork::Answer)
        },
        (SteeringPhase::SettlingSubmission, SteeringEvent::SubmissionSettled) => (
            SteeringTask { phase: SteeringPhase::Done, ..t },
            SteeringWork::Answer,
        ),
        _ => (t, SteeringWork::Nothing),
    }
}

/// Takes the delivery from `t` past the outcome `e`: the next state, and the work
/// to do; see [`steering_transition`].
pub fn steering_step(t: SteeringTask, e: SteeringEvent) -> (r: (SteeringTask, SteeringWork))
    ensures
        r == steering_transition(t, e),
{
    match (t.phase, e) {
        (SteeringPhase::Recovering, SteeringEvent::Recovered { found }) => if found {
            (SteeringTask { phase: SteeringPhase::Done, recovered: true, ..t }, SteeringWork::Answer)
        } else {
            (SteeringTask { phase: SteeringPhase::Admitting, ..t }, SteeringWork::Admit)
        },
        (SteeringPhase::Admitting, SteeringEvent::Admitted { ok })
        | (SteeringPhase::Saving, SteeringEvent::Saved { ok }) => if !ok {
            (SteeringTask { phase: SteeringPhase::Done, refused_early: true, ..t }, SteeringWork::Answer)
        } else if t.phase == SteeringPhase::Admitting {
            (SteeringTask { phase: SteeringPhase::Saving, ..t }, SteeringWork::Save)
        } else {
            (SteeringTask { phase: SteeringPhase::Routing, ..t }, SteeringWork::Route)
        },
        (SteeringPhase::Routing, SteeringEvent::Routed(RouteTaken::Refused))
        | (SteeringPhase::Delivering, SteeringEvent::Delivered(NativeOutcome::Failed)) => (
            SteeringTask { phase: SteeringPhase::FinishingFailure, failed: true, ..t },
            SteeringWork::FinishFailure,
        ),
        (SteeringPhase::Routing, SteeringEvent::Routed(RouteTaken::Queue))
        | (SteeringPhase::Delivering, SteeringEvent::Delivered(NativeOutcome::PromptRequired)) => (
            SteeringTask { phase: SteeringPhase::Enqueueing, ..t },
            SteeringWork::Enqueue,
        ),
        (SteeringPhase::Routing, SteeringEvent::Routed(RouteTaken::Native)) => (
            SteeringTask { phase: SteeringPhase::Delivering, ..t },
            SteeringWork::DeliverNative,
        ),
        (SteeringPhase::Delivering, SteeringEvent::Delivered(NativeOutcome::Injected)) => (
            SteeringTask { phase: SteeringPhase::RecordingInjection, ..t },
            SteeringWork::RecordInjection,
        ),
        (SteeringPhase::RecordingInjection, SteeringEvent::InjectionRecorded { saved }) => if saved {
            (
                SteeringTask { phase: SteeringPhase::SettlingStopped, injected: true, ..t },
                SteeringWork::SettleStopped,
            )
        } else {
            (
                SteeringTask { phase: SteeringPhase::StoppingAfterInjection, failed: true, storage_failed: true, ..t },
                SteeringWork::StopAgent,
            )
        },
        (SteeringPhase::StoppingAfterInjection, SteeringEvent::Stopped) => (
            SteeringTask { phase: SteeringPhase::SettlingSubmission, ..t },
            SteeringWork::SettleSubmission,
        ),
        (SteeringPhase::Enqueueing, SteeringEvent::Enqueued) => (
            SteeringTask { phase: SteeringPhase::SettlingStopped, queued: true, ..t },
            SteeringWork::SettleStopped,
        ),
        (SteeringPhase::FinishingFailure, SteeringEvent::FailureFinished { saved }) => (
            SteeringTask { phase: SteeringPhase::RecordingFailure, storage_failed: !saved, ..t },
            SteeringWork::RecordFailure,
        ),
        (SteeringPhase::RecordingFailure, SteeringEvent::FailureRecorded { saved }) => if t.storage_failed || !saved {
            (
                SteeringTask { phase: SteeringPhase::StoppingAfterFailure, storage_failed: true, ..t },
                SteeringWork::StopAgent,
            )
        } else {
            (SteeringTask { phase: SteeringPhase::SettlingStopped, ..t }, SteeringWork::SettleStopped)
        },
        (SteeringPhase::StoppingAfterFailure, SteeringEvent::Stopped) => (
            SteeringTask { phase: SteeringPhase::SettlingStopped, ..t },
            SteeringWork::SettleStopped,
        ),
        (SteeringPhase::SettlingStopped, SteeringEvent::StoppedSettled { storage_failed }) => if t.failed
            || storage_failed {
            (
                SteeringTask { phase: SteeringPhase::SettlingSubmission, drain_failed: storage_failed, ..t },
                SteeringWork::SettleSubmission,
            )
        } else {
            (SteeringTask { phase: SteeringPhase::Done, ..t }, SteeringWork::Answer)
        },
        (SteeringPhase::SettlingSubmission, SteeringEvent::SubmissionSettled) => (
            SteeringTask { phase: SteeringPhase::Done, ..t },
            SteeringWork::Answer,
        ),
        _ => (t, SteeringWork::Nothing),
    }
}

impl SteeringTask {
    /// The state a delivery starts in: looking for a saved submission.
    pub fn start() -> (r: Self)
        ensures
            r == steering_start(),
    {
        SteeringTask {
            phase: SteeringPhase::Recovering,
            recovered: false,
            refused_early: false,
            injected: false,
            queued: false,
            failed: false,
            storage_failed: false,
            drain_failed: false,
        }
    }

    /// Whether the delivery answers with a failure.
    pub fn answers_failure(&self) -> (r: bool)
        ensures
            r == steering_failed(*self),
    {
        self.failed || self.drain_failed
    }
}

/// What an answered delivery answers with.
#[derive(Clone, Copy, Debug, PartialEq, Eq, Structural)]
pub enum SteeringAnswer {
    /// What the saved submission restored.
    Recovered,
    /// The delivery's failure.
    Failure,
    /// The injection acknowledgement or the queued receipt.
    Delivered,
}

/// What `t` answers with once it is answered.
pub open spec fn steering_answer(t: SteeringTask) -> SteeringAnswer {
    if t.recovered {
        SteeringAnswer::Recovered
    } else if t.refused_early || steering_failed(t) {
        SteeringAnswer::Failure
    } else {
        SteeringAnswer::Delivered
    }
}

impl SteeringTask {
    /// What this delivery answers with; see [`steering_answer`].
    pub fn answer(&self) -> (r: SteeringAnswer)
        ensures
            r == steering_answer(*self),
    {
        if self.recovered {
            SteeringAnswer::Recovered
        } else if self.refused_early || self.failed || self.drain_failed {
            SteeringAnswer::Failure
        } else {
            SteeringAnswer::Delivered
        }
    }
}

/// The failure a delivery answers with after settling the inputs a stop left
/// pending failed to save: beside its own failure, or alone when it had none.
pub open spec fn after_stopped_settlement(failure: Option<AgentError>, storage: StorageError) -> AgentError {
    match failure {
        Some(prior) => AgentError::StorageAfterExecution {
            error: storage,
            execution_result: Box::new(Err(prior)),
        },
        None => AgentError::Storage(storage),
    }
}

/// Keeps a failure to settle stopped inputs; see [`after_stopped_settlement`].
pub fn stopped_settlement_failure(failure: Option<AgentError>, storage: StorageError) -> (r: AgentError)
    ensures
        r == after_stopped_settlement(failure, storage),
{
    match failure {
        Some(prior) => AgentError::StorageAfterExecution { error: storage, execution_result: Box::new(Err(prior)) },
        None => AgentError::Storage(storage),
    }
}

/// Whether `t` can arise from [`steering_start`]: nothing is delivered before the
/// input is routed, and a delivery that injected did not fail.
pub open spec fn steering_reachable(t: SteeringTask) -> bool {
    &&& (t.phase == SteeringPhase::Recovering || t.phase == SteeringPhase::Admitting || t.phase
        == SteeringPhase::Saving || t.phase == SteeringPhase::Routing || t.phase == SteeringPhase::Delivering
        || t.phase == SteeringPhase::RecordingInjection || t.phase == SteeringPhase::Enqueueing) ==> !t.injected
        && !t.queued && !t.failed && !t.recovered && !t.refused_early
    &&& t.injected ==> !t.failed && !t.queued
    &&& t.queued ==> !t.failed
}

/// Every step keeps the delivery in the states that can arise from its start.
pub proof fn law_steering_steps_stay_reachable(t: SteeringTask, e: SteeringEvent)
    requires
        steering_reachable(t),
    ensures
        steering_reachable(steering_transition(t, e).0),
        steering_reachable(steering_start()),
{
}

/// A retry answered from its saved submission does nothing more: it is answered
/// at once, and an answered delivery asks for no work whatever comes after, so an
/// identical retry never injects a second time.
pub proof fn law_retries_never_deliver_again(t: SteeringTask, e: SteeringEvent)
    ensures
        steering_transition(steering_start(), SteeringEvent::Recovered { found: true }) == (
            SteeringTask { phase: SteeringPhase::Done, recovered: true, ..steering_start() },
            SteeringWork::Answer,
        ),
        t.phase == SteeringPhase::Done ==> steering_transition(t, e) == (t, SteeringWork::Nothing),
        steering_transition(t, e).1 == SteeringWork::DeliverNative ==> t.phase == SteeringPhase::Routing,
{
}

/// Evidence that cannot be saved stops the agent: a failed injection record, or a
/// failed delivery whose result or settlement could not be saved, asks to stop
/// before anything else; and an injection is answered as such only once its
/// evidence was saved.
pub proof fn law_unsaved_evidence_stops_the_agent(t: SteeringTask, saved: bool)
    ensures
        t.phase == SteeringPhase::RecordingInjection ==> (steering_transition(
            t,
            SteeringEvent::InjectionRecorded { saved },
        ).1 == SteeringWork::StopAgent <==> !saved),
        t.phase == SteeringPhase::RecordingFailure ==> (steering_transition(
            t,
            SteeringEvent::FailureRecorded { saved },
        ).1 == SteeringWork::StopAgent <==> (t.storage_failed || !saved)),
        steering_transition(t, SteeringEvent::InjectionRecorded { saved }).0.injected && !t.injected ==> saved,
{
}

/// A submission that could not be saved is never routed or delivered: the failed
/// save ends the delivery at once, refused before anything reached the agent, and
/// it answers with the failure. Routing follows only a successful save, and a
/// native delivery only a route.
pub proof fn law_unsaved_submission_is_never_delivered(t: SteeringTask, e: SteeringEvent)
    requires
        t.phase == SteeringPhase::Saving,
    ensures
        steering_transition(t, (SteeringEvent::Saved { ok: false })) == (
            (SteeringTask { phase: SteeringPhase::Done, refused_early: true, ..t }),
            SteeringWork::Answer,
        ),
        !t.recovered ==> steering_answer(steering_transition(t, (SteeringEvent::Saved { ok: false })).0)
            == SteeringAnswer::Failure,
        steering_transition(t, e).1 == SteeringWork::Route ==> e == (SteeringEvent::Saved { ok: true }),
        steering_transition(t, e).1 != SteeringWork::DeliverNative,
        steering_transition(t, e).1 != SteeringWork::Enqueue,
{
}

/// Wherever a delivery stands, it is asked to route its input only right after the
/// submission was saved.
pub proof fn law_routing_needs_a_saved_submission(t: SteeringTask, e: SteeringEvent)
    ensures
        steering_transition(t, e).1 == SteeringWork::Route ==> (t.phase == SteeringPhase::Saving && e
            == (SteeringEvent::Saved { ok: true })),
{
}

} // verus!
