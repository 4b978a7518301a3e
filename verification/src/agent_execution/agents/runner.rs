//! The decisions of one provider invocation's observation loop. The loop waits on
//! a stop notice, the provider's reply and the observation stream; each time one of
//! them fires, [`invocation_step`] takes the loop state and what fired to the next
//! state and the work to do before the next wait.
use super::AgentError;
use crate::domain::executions::ExecutionOutcome;
use vstd::prelude::*;

verus! {

/// Why observing an invocation failed, so that its adapter is stopped.
#[derive(Clone, Copy, Debug, PartialEq, Eq, Structural)]
pub enum ObservationFault {
    /// A local cancellation report arrived that the invocation's own stop did not ask for.
    UnrequestedLocalCancellation,
    /// An observation failed its owner or size check.
    InvalidObservation,
    /// A second terminal observation of the invocation arrived.
    DuplicateTerminal,
    /// Output of the invocation arrived after its terminal observation.
    OutputAfterTerminal,
    /// An observation would exceed what the session may retain.
    RetentionExceeded,
    /// The observation reader failed.
    ReaderFailed,
    /// The provider rejected admission after emitting observations of the invocation.
    RejectedWithOutput,
}

/// The protocol message of a fault the loop detects itself; the others carry the
/// error of the check that failed.
pub open spec fn fault_text(f: ObservationFault) -> Option<Seq<char>> {
    match f {
        ObservationFault::UnrequestedLocalCancellation => Some(
            "local cancellation report has no invocation stop"@,
        ),
        ObservationFault::DuplicateTerminal => Some("duplicate terminal observation"@),
        ObservationFault::OutputAfterTerminal => Some("provider output follows terminal observation"@),
        ObservationFault::RejectedWithOutput => Some(
            "provider rejected admission after emitting execution observations"@,
        ),
        _ => None,
    }
}

/// The protocol message of `f`, when the loop detects it itself.
pub fn fault_message(f: ObservationFault) -> (r: Option<&'static str>)
    ensures
        r is Some <==> fault_text(f) is Some,
        r matches Some(t) ==> t@ == fault_text(f)->0,
{
    match f {
        ObservationFault::UnrequestedLocalCancellation => Some("local cancellation report has no invocation stop"),
        ObservationFault::DuplicateTerminal => Some("duplicate terminal observation"),
        ObservationFault::OutputAfterTerminal => Some("provider output follows terminal observation"),
        ObservationFault::RejectedWithOutput => Some(
            "provider rejected admission after emitting execution observations",
        ),
        _ => None,
    }
}

/// Whether stopping for `f` leaves the loop to stop after the ready settlement
/// when the adapter's cleanup is not confirmed.
pub open spec fn waits_for_cleanup(f: ObservationFault) -> bool {
    !(f is UnrequestedLocalCancellation || f is RejectedWithOutput)
}

/// What a provider reply says of session cleanup.
#[derive(Clone, Copy, Debug, PartialEq, Eq, Structural)]
pub enum ReplyCleanup {
    /// The reply reports no cleanup.
    NotReported,
    /// The adapter reported cleanup, confirmed or not.
    Reported { confirmed: bool },
    /// The session must be shut down before the reply settles.
    Required,
}

/// What an observation of the stream carries for the invocation.
#[derive(Clone, Copy, Debug, PartialEq, Eq, Structural)]
pub enum ObservedUpdate {
    /// The terminal observation, with its outcome.
    Finished(ExecutionOutcome),
    /// A cancelled permission review, which may follow the terminal observation.
    PermissionCancelled,
    /// Any other output.
    Output,
}

/// The outside work whose outcome the loop waits for before anything else.
#[derive(Clone, Copy, Debug, PartialEq, Eq, Structural)]
pub enum Awaiting {
    /// Nothing: the loop polls its sources.
    Nothing,
    /// Shutting the session down as the provider reply required.
    ReplyCleanup,
    /// Shutting the session down after an observation could not be saved.
    StorageCleanup,
    /// Saving an accepted observation.
    Persistence,
    /// Stopping the adapter after this observation fault.
    ObservationStop(ObservationFault),
}

/// What fired, with the facts the runner established about it.
#[derive(Clone, Copy, Debug, PartialEq, Eq, Structural)]
pub enum InvocationEvent {
    /// The invocation's stop notice; `started` tells whether execution had begun.
    StopNotice { started: bool },
    /// The provider replied: `rejected` for a refused admission, whether it is a
    /// local cancellation report without the invocation's own stop, whether the
    /// report was saved, and what it says of cleanup.
    Reply { rejected: bool, unrequested_local_cancellation: bool, report_saved: bool, cleanup: ReplyCleanup },
    /// An observation: whether it is the invocation's own, whether it passed the
    /// owner and size checks, what it carries, and whether it may be retained.
    Observation { own: bool, well_formed: bool, update: ObservedUpdate, retainable: bool },
    /// The observation stream ended.
    ReaderEnd,
    /// The observation reader failed.
    ReaderFailure,
    /// Nothing earlier was ready, and the loop may leave.
    ReadyToLeave,
    /// The accepted observation was saved, or not.
    Persisted { saved: bool },
    /// The requested shutdown finished: whether cleanup was confirmed, and whether it failed.
    CleanupDone { confirmed: bool, failed: bool },
    /// The adapter stop after an observation fault finished, confirmed or not.
    ObservationStopped { confirmed: bool },
}

/// The loop's own state between two waits.
#[derive(Clone, Copy, Debug, PartialEq, Eq, Structural)]
pub struct InvocationLoop {
    /// The stop notice fired.
    pub stop_observed: bool,
    /// The invocation has its result.
    pub settled: bool,
    /// No further observation will be read.
    pub ended: bool,
    /// The outcome of the invocation's terminal observation.
    pub terminal: Option<ExecutionOutcome>,
    /// An observation of the invocation itself arrived.
    pub observed_own: bool,
    /// The provider rejected admission.
    pub admission_rejected: bool,
    /// Saving evidence failed.
    pub storage_failed: bool,
    /// Observation failed and its adapter was stopped.
    pub observation_failed: bool,
    /// Cleanup was not confirmed: leave as soon as the ready settlement is taken.
    pub stop_after_settlement: bool,
    /// Outside work whose outcome comes next.
    pub awaiting: Awaiting,
    /// The loop is left.
    pub left: bool,
}

/// The work a step asks for, in this order.
#[derive(Clone, Copy, Debug, PartialEq, Eq, Structural)]
pub struct InvocationAction {
    /// Settle the invocation as Closed: it was stopped before execution began.
    pub settle_closed: bool,
    /// Fence the session's controls for this work generation.
    pub fence: bool,
    /// Reject the dispatch of the invocation.
    pub reject_dispatch: bool,
    /// Settle the invocation with the error of the fault it stops for.
    pub settle_failed: bool,
    /// Stop the adapter for this fault, and report how the stop went.
    pub stop_for: Option<ObservationFault>,
    /// Shut the session down after a failure, and report how cleanup went.
    pub shut_down: bool,
    /// Save the accepted observation, and report whether it was saved.
    pub persist: bool,
    /// Publish the saved observation.
    pub publish: bool,
}

/// The state the loop starts in.
pub open spec fn loop_start() -> InvocationLoop {
    InvocationLoop {
        stop_observed: false,
        settled: false,
        ended: false,
        terminal: None,
        observed_own: false,
        admission_rejected: false,
        storage_failed: false,
        observation_failed: false,
        stop_after_settlement: false,
        awaiting: Awaiting::Nothing,
        left: false,
    }
}

/// No work.
pub open spec fn no_action() -> InvocationAction {
    InvocationAction {
        settle_closed: false,
        fence: false,
        reject_dispatch: false,
        settle_failed: false,
        stop_for: None,
        shut_down: false,
        persist: false,
        publish: false,
    }
}

/// Whether every ready observation at settlement has been drained: a rejected
/// admission owns none, and a settled invocation with its terminal observation
/// expects no more.
pub open spec fn drain_complete(s: InvocationLoop) -> bool {
    s.admission_rejected || (s.settled && s.terminal is Some)
}

/// Whether the loop is free to poll its sources.
pub open spec fn polling(s: InvocationLoop) -> bool {
    !s.left && s.awaiting is Nothing
}

/// Stops the adapter for `f`, after the work `a` already asks for.
pub open spec fn stopping(s: InvocationLoop, a: InvocationAction, f: ObservationFault) -> (
    InvocationLoop,
    InvocationAction,
) {
    (
        InvocationLoop { awaiting: Awaiting::ObservationStop(f), ..s },
        InvocationAction { stop_for: Some(f), ..a },
    )
}

/// What follows every completed branch: a rejected admission that emitted its own
/// observations is stopped; a rejected admission with failed evidence reads no
/// more; and a settled invocation that reads no more leaves the loop.
pub open spec fn after_branch(s: InvocationLoop, a: InvocationAction) -> (InvocationLoop, InvocationAction) {
    if s.admission_rejected && s.observed_own && !s.observation_failed {
        stopping(s, InvocationAction { reject_dispatch: true, ..a }, ObservationFault::RejectedWithOutput)
    } else {
        let ended = s.ended || (s.admission_rejected && (s.storage_failed || s.observation_failed));
        (InvocationLoop { ended, left: s.settled && ended, ..s }, a)
    }
}

/// A provider reply taken while the loop polls.
pub open spec fn on_reply(
    s: InvocationLoop,
    rejected: bool,
    unrequested_local_cancellation: bool,
    report_saved: bool,
    cleanup: ReplyCleanup,
) -> (InvocationLoop, InvocationAction) {
    if unrequested_local_cancellation {
        stopping(
            InvocationLoop { admission_rejected: rejected, settled: true, ended: true, ..s },
            InvocationAction { settle_failed: true, ..no_action() },
            ObservationFault::UnrequestedLocalCancellation,
        )
    } else {
        let s1 = InvocationLoop {
            admission_rejected: rejected,
            settled: true,
            storage_failed: s.storage_failed || !report_saved,
            ..s
        };
        match cleanup {
            ReplyCleanup::NotReported => after_branch(s1, no_action()),
            ReplyCleanup::Reported { confirmed } => after_branch(
                InvocationLoop { stop_after_settlement: s1.stop_after_settlement || !confirmed, ..s1 },
                no_action(),
            ),
            ReplyCleanup::Required => (
                InvocationLoop { awaiting: Awaiting::ReplyCleanup, ..s1 },
                InvocationAction { shut_down: true, ..no_action() },
            ),
        }
    }
}

/// An observation taken while the loop polls.
pub open spec fn on_observation(
    s: InvocationLoop,
    own: bool,
    well_formed: bool,
    update: ObservedUpdate,
    retainable: bool,
) -> (InvocationLoop, InvocationAction) {
    let seen = s.observed_own || own;
    let s1 = InvocationLoop { observed_own: seen, ..s };
    let a = InvocationAction { fence: s.admission_rejected && seen, ..no_action() };
    if !well_formed {
        stopping(s1, a, ObservationFault::InvalidObservation)
    } else if own && s.terminal is Some && !(update is PermissionCancelled) {
        stopping(
            s1,
            a,
            if update is Finished {
                ObservationFault::DuplicateTerminal
            } else {
                ObservationFault::OutputAfterTerminal
            },
        )
    } else {
        let s2 = match update {
            ObservedUpdate::Finished(o) => if own {
                InvocationLoop { terminal: Some(o), ..s1 }
            } else {
                s1
            },
            _ => s1,
        };
        if !retainable {
            stopping(s2, a, ObservationFault::RetentionExceeded)
        } else {
            (InvocationLoop { awaiting: Awaiting::Persistence, ..s2 }, InvocationAction { persist: true, ..a })
        }
    }
}

/// A source that fired while the loop polls. A source the loop does not poll in
/// `s` changes nothing.
pub open spec fn on_source(s: InvocationLoop, e: InvocationEvent) -> (InvocationLoop, InvocationAction) {
    let reading = !s.ended && !s.stop_after_settlement;
    match e {
        InvocationEvent::StopNotice { started } => if s.stop_observed {
            (s, no_action())
        } else if !started {
            (
                InvocationLoop { stop_observed: true, settled: true, left: true, ..s },
                InvocationAction { settle_closed: true, ..no_action() },
            )
        } else {
            after_branch(InvocationLoop { stop_observed: true, ..s }, no_action())
        },
        InvocationEvent::Reply { rejected, unrequested_local_cancellation, report_saved, cleanup } => if s.settled {
            (s, no_action())
        } else {
            on_reply(s, rejected, unrequested_local_cancellation, report_saved, cleanup)
        },
        InvocationEvent::Observation { own, well_formed, update, retainable } => if reading {
            on_observation(s, own, well_formed, update, retainable)
        } else {
            (s, no_action())
        },
        InvocationEvent::ReaderEnd => if reading {
            after_branch(InvocationLoop { ended: true, ..s }, no_action())
        } else {
            (s, no_action())
        },
        InvocationEvent::ReaderFailure => if reading {
            stopping(InvocationLoop { ended: true, ..s }, no_action(), ObservationFault::ReaderFailed)
        } else {
            (s, no_action())
        },
        InvocationEvent::ReadyToLeave => if s.stop_after_settlement || drain_complete(s) {
            (InvocationLoop { left: true, ..s }, no_action())
        } else {
            (s, no_action())
        },
        _ => (s, no_action()),
    }
}

/// The next state and the work to do after `e` fired in state `s`. Once the loop
/// is left nothing changes; while outside work is awaited, only its outcome counts.
pub open spec fn invocation_transition(s: InvocationLoop, e: InvocationEvent) -> (InvocationLoop, InvocationAction) {
    if s.left {
        (s, no_action())
    } else {
        match s.awaiting {
            Awaiting::Nothing => on_source(s, e),
            Awaiting::ReplyCleanup => match e {
                InvocationEvent::CleanupDone { confirmed, .. } => after_branch(
                    InvocationLoop { awaiting: Awaiting::Nothing, stop_after_settlement: !confirmed, ..s },
                    no_action(),
                ),
                _ => (s, no_action()),
            },
            Awaiting::Persistence => match e {
                InvocationEvent::Persisted { saved } => if saved {
                    after_branch(
                        InvocationLoop { awaiting: Awaiting::Nothing, ..s },
                        InvocationAction { publish: true, ..no_action() },
                    )
                } else {
                    (
                        InvocationLoop { awaiting: Awaiting::StorageCleanup, storage_failed: true, ..s },
                        InvocationAction { shut_down: true, ..no_action() },
                    )
                },
                _ => (s, no_action()),
            },
            Awaiting::StorageCleanup => match e {
                InvocationEvent::CleanupDone { confirmed, failed } => if failed {
                    after_branch(
                        InvocationLoop {
                            awaiting: Awaiting::Nothing,
                            stop_after_settlement: !confirmed,
                            observation_failed: true,
                            ended: true,
                            ..s
                        },
                        no_action(),
                    )
                } else {
                    after_branch(InvocationLoop { awaiting: Awaiting::Nothing, ..s }, no_action())
                },
                _ => (s, no_action()),
            },
            Awaiting::ObservationStop(f) => match e {
                InvocationEvent::ObservationStopped { confirmed } => after_branch(
                    InvocationLoop {
                        awaiting: Awaiting::Nothing,
                        observation_failed: true,
                        ended: true,
                        stop_after_settlement: if waits_for_cleanup(f) {
                            !confirmed
                        } else {
                            s.stop_after_settlement
                        },
                        ..s
                    },
                    no_action(),
                ),
                _ => (s, no_action()),
            },
        }
    }
}

fn quiet() -> (r: InvocationAction)
    ensures
        r == no_action(),
{
    InvocationAction {
        settle_closed: false,
        fence: false,
        reject_dispatch: false,
        settle_failed: false,
        stop_for: None,
        shut_down: false,
        persist: false,
        publish: false,
    }
}

fn settle_branch(s: InvocationLoop, a: InvocationAction) -> (r: (InvocationLoop, InvocationAction))
    ensures
        r == after_branch(s, a),
{
    if s.admission_rejected && s.observed_own && !s.observation_failed {
        let f = ObservationFault::RejectedWithOutput;
        (
            InvocationLoop { awaiting: Awaiting::ObservationStop(f), ..s },
            InvocationAction { reject_dispatch: true, stop_for: Some(f), ..a },
        )
    } else {
        let ended = s.ended || (s.admission_rejected && (s.storage_failed || s.observation_failed));
        (InvocationLoop { ended, left: s.settled && ended, ..s }, a)
    }
}

fn take_reply(
    s: InvocationLoop,
    rejected: bool,
    unrequested_local_cancellation: bool,
    report_saved: bool,
    cleanup: ReplyCleanup,
) -> (r: (InvocationLoop, InvocationAction))
    ensures
        r == on_reply(s, rejected, unrequested_local_cancellation, report_saved, cleanup),
{
    if unrequested_local_cancellation {
        let f = ObservationFault::UnrequestedLocalCancellation;
        return (
            InvocationLoop {
                admission_rejected: rejected,
                settled: true,
                ended: true,
                awaiting: Awaiting::ObservationStop(f),
                ..s
            },
            InvocationAction { settle_failed: true, stop_for: Some(f), ..quiet() },
        );
    }
    let s1 = InvocationLoop {
        admission_rejected: rejected,
        settled: true,
        storage_failed: s.storage_failed || !report_saved,
        ..s
    };
    match cleanup {
        ReplyCleanup::NotReported => settle_branch(s1, quiet()),
        ReplyCleanup::Reported { confirmed } => settle_branch(
            InvocationLoop { stop_after_settlement: s1.stop_after_settlement || !confirmed, ..s1 },
            quiet(),
        ),
        ReplyCleanup::Required => (
            InvocationLoop { awaiting: Awaiting::ReplyCleanup, ..s1 },
            InvocationAction { shut_down: true, ..quiet() },
        ),
    }
}

fn take_observation(
    s: InvocationLoop,
    own: bool,
    well_formed: bool,
    update: ObservedUpdate,
    retainable: bool,
) -> (r: (InvocationLoop, InvocationAction))
    ensures
        r == on_observation(s, own, well_formed, update, retainable),
{
    let seen = s.observed_own || own;
    let s1 = InvocationLoop { observed_own: seen, ..s };
    let a = InvocationAction { fence: s.admission_rejected && seen, ..quiet() };
    let fault = if !well_formed {
        Some(ObservationFault::InvalidObservation)
    } else if own && s.terminal.is_some() {
        match update {
            ObservedUpdate::PermissionCancelled => None,
            ObservedUpdate::Finished(_) => Some(ObservationFault::DuplicateTerminal),
            ObservedUpdate::Output => Some(ObservationFault::OutputAfterTerminal),
        }
    } else {
        None
    };
    if let Some(f) = fault {
        return (InvocationLoop { awaiting: Awaiting::ObservationStop(f), ..s1 }, InvocationAction { stop_for: Some(f), ..a });
    }
    let s2 = match update {
        ObservedUpdate::Finished(o) => if own {
            InvocationLoop { terminal: Some(o), ..s1 }
        } else {
            s1
        },
        _ => s1,
    };
    if !retainable {
        let f = ObservationFault::RetentionExceeded;
        (InvocationLoop { awaiting: Awaiting::ObservationStop(f), ..s2 }, InvocationAction { stop_for: Some(f), ..a })
    } else {
        (InvocationLoop { awaiting: Awaiting::Persistence, ..s2 }, InvocationAction { persist: true, ..a })
    }
}

fn take_source(s: InvocationLoop, e: InvocationEvent) -> (r: (InvocationLoop, InvocationAction))
    ensures
        r == on_source(s, e),
{
    let reading = !s.ended && !s.stop_after_settlement;
    match e {
        InvocationEvent::StopNotice { started } => if s.stop_observed {
            (s, quiet())
        } else if !started {
            (
                InvocationLoop { stop_observed: true, settled: true, left: true, ..s },
                InvocationAction { settle_closed: true, ..quiet() },
            )
        } else {
            settle_branch(InvocationLoop { stop_observed: true, ..s }, quiet())
        },
        InvocationEvent::Reply { rejected, unrequested_local_cancellation, report_saved, cleanup } => if s.settled {
            (s, quiet())
        } else {
            take_reply(s, rejected, unrequested_local_cancellation, report_saved, cleanup)
        },
        InvocationEvent::Observation { own, well_formed, update, retainable } => if reading {
            take_observation(s, own, well_formed, update, retainable)
        } else {
            (s, quiet())
        },
        InvocationEvent::ReaderEnd => if reading {
            settle_branch(InvocationLoop { ended: true, ..s }, quiet())
        } else {
            (s, quiet())
        },
        InvocationEvent::ReaderFailure => if reading {
            let f = ObservationFault::ReaderFailed;
            (
                InvocationLoop { ended: true, awaiting: Awaiting::ObservationStop(f), ..s },
                InvocationAction { stop_for: Some(f), ..quiet() },
            )
        } else {
            (s, quiet())
        },
        InvocationEvent::ReadyToLeave => if s.stop_after_settlement || s.admission_rejected || (s.settled
            && s.terminal.is_some()) {
            (InvocationLoop { left: true, ..s }, quiet())
        } else {
            (s, quiet())
        },
        _ => (s, quiet()),
    }
}

/// Takes the loop from `s` past the event `e`: the next state, and the work to do
/// before the next wait; see [`invocation_transition`].
pub fn invocation_step(s: InvocationLoop, e: InvocationEvent) -> (r: (InvocationLoop, InvocationAction))
    ensures
        r == invocation_transition(s, e),
{
    if s.left {
        return (s, quiet());
    }
    match s.awaiting {
        Awaiting::Nothing => take_source(s, e),
        Awaiting::ReplyCleanup => match e {
            InvocationEvent::CleanupDone { confirmed, .. } => settle_branch(
                InvocationLoop { awaiting: Awaiting::Nothing, stop_after_settlement: !confirmed, ..s },
                quiet(),
            ),
            _ => (s, quiet()),
        },
        Awaiting::Persistence => match e {
            InvocationEvent::Persisted { saved } => if saved {
                settle_branch(
                    InvocationLoop { awaiting: Awaiting::Nothing, ..s },
                    InvocationAction { publish: true, ..quiet() },
                )
            } else {
                (
                    InvocationLoop { awaiting: Awaiting::StorageCleanup, storage_failed: true, ..s },
                    InvocationAction { shut_down: true, ..quiet() },
                )
            },
            _ => (s, quiet()),
        },
        Awaiting::StorageCleanup => match e {
            InvocationEvent::CleanupDone { confirmed, failed } => if failed {
                settle_branch(
                    InvocationLoop {
                        awaiting: Awaiting::Nothing,
                        stop_after_settlement: !confirmed,
                        observation_failed: true,
                        ended: true,
                        ..s
                    },
                    quiet(),
                )
            } else {
                settle_branch(InvocationLoop { awaiting: Awaiting::Nothing, ..s }, quiet())
            },
            _ => (s, quiet()),
        },
        Awaiting::ObservationStop(f) => match e {
            InvocationEvent::ObservationStopped { confirmed } => {
                let keeps = matches!(
                    f,
                    ObservationFault::UnrequestedLocalCancellation | ObservationFault::RejectedWithOutput
                );
                settle_branch(
                    InvocationLoop {
                        awaiting: Awaiting::Nothing,
                        observation_failed: true,
                        ended: true,
                        stop_after_settlement: if keeps {
                            s.stop_after_settlement
                        } else {
                            !confirmed
                        },
                        ..s
                    },
                    quiet(),
                )
            },
            _ => (s, quiet()),
        },
    }
}

/// The result of a provider reply after the shutdown it required: the reply's own
/// result, or, when cleanup failed, that failure beside it.
pub fn reply_settlement(
    settled: Result<ExecutionOutcome, AgentError>,
    cleanup_failure: Option<AgentError>,
) -> (r: Result<ExecutionOutcome, AgentError>)
    ensures
        r == match cleanup_failure {
            None => settled,
            Some(e) => Err(
                AgentError::ExecutionObservation { error: Box::new(e), execution_result: Some(Box::new(settled)) },
            ),
        },
{
    match cleanup_failure {
        None => settled,
        Some(e) => Err(AgentError::ExecutionObservation { error: Box::new(e), execution_result: Some(Box::new(settled)) }),
    }
}

impl InvocationLoop {
    /// The state a loop starts in: nothing observed, settled or awaited.
    pub fn start() -> (r: Self)
        ensures
            r == loop_start(),
    {
        InvocationLoop {
            stop_observed: false,
            settled: false,
            ended: false,
            terminal: None,
            observed_own: false,
            admission_rejected: false,
            storage_failed: false,
            observation_failed: false,
            stop_after_settlement: false,
            awaiting: Awaiting::Nothing,
            left: false,
        }
    }

    /// Whether the loop listens for its stop notice.
    pub fn polls_stop(&self) -> (r: bool)
        ensures
            r == (polling(*self) && !self.stop_observed),
    {
        !self.left && matches!(self.awaiting, Awaiting::Nothing) && !self.stop_observed
    }

    /// Whether the loop waits for the provider's reply.
    pub fn polls_reply(&self) -> (r: bool)
        ensures
            r == (polling(*self) && !self.settled),
    {
        !self.left && matches!(self.awaiting, Awaiting::Nothing) && !self.settled
    }

    /// Whether the loop reads the observation stream.
    pub fn polls_events(&self) -> (r: bool)
        ensures
            r == (polling(*self) && !self.ended && !self.stop_after_settlement),
    {
        !self.left && matches!(self.awaiting, Awaiting::Nothing) && !self.ended && !self.stop_after_settlement
    }

    /// Whether the loop leaves as soon as no earlier source is ready: after
    /// unconfirmed cleanup, or once the ready observations are drained.
    pub fn may_leave(&self) -> (r: bool)
        ensures
            r == (polling(*self) && (self.stop_after_settlement || drain_complete(*self))),
    {
        !self.left && matches!(self.awaiting, Awaiting::Nothing) && (self.stop_after_settlement
            || self.admission_rejected || (self.settled && self.terminal.is_some()))
    }
}

/// A stop notice that arrives before execution began settles the invocation as
/// Closed and leaves the loop.
pub proof fn law_stop_before_start_settles_closed(s: InvocationLoop)
    requires
        polling(s),
        !s.stop_observed,
    ensures
        ({
            let r = invocation_transition(s, InvocationEvent::StopNotice { started: false });
            r.0.left && r.0.settled && r.1.settle_closed
        }),
{
}

/// A rejected admission followed by an observation of its own fences the session
/// at once, and the adapter is stopped: for the fault in the observation, or, once
/// the observation is saved, because a rejected admission emitted output.
pub proof fn law_rejected_admission_with_own_output_is_stopped(
    s: InvocationLoop,
    well_formed: bool,
    update: ObservedUpdate,
    retainable: bool,
)
    requires
        polling(s),
        s.admission_rejected,
        !s.ended,
        !s.stop_after_settlement,
        !s.observation_failed,
    ensures
        ({
            let r = invocation_transition(
                s,
                InvocationEvent::Observation { own: true, well_formed, update, retainable },
            );
            let saved = invocation_transition(r.0, InvocationEvent::Persisted { saved: true });
            &&& r.1.fence
            &&& r.1.stop_for is Some || (r.0.awaiting == Awaiting::Persistence && saved.1.reject_dispatch
                && saved.1.stop_for == Some(ObservationFault::RejectedWithOutput))
        }),
{
}

/// A provider that rejects admission after its own observations were seen is
/// stopped as soon as the rejection arrives.
pub proof fn law_rejection_after_own_output_is_stopped(s: InvocationLoop, report_saved: bool, confirmed: bool)
    requires
        polling(s),
        !s.settled,
        s.observed_own,
        !s.observation_failed,
    ensures
        ({
            let r = invocation_transition(
                s,
                InvocationEvent::Reply {
                    rejected: true,
                    unrequested_local_cancellation: false,
                    report_saved,
                    cleanup: ReplyCleanup::Reported { confirmed },
                },
            );
            r.1.reject_dispatch && r.1.stop_for == Some(ObservationFault::RejectedWithOutput)
        }),
{
}

/// Output of the invocation after its terminal observation fails the run: the
/// adapter is stopped for it, and once stopped the loop records the failure and
/// reads no more.
pub proof fn law_output_after_terminal_fails(
    s: InvocationLoop,
    update: ObservedUpdate,
    retainable: bool,
    confirmed: bool,
)
    requires
        polling(s),
        !s.ended,
        !s.stop_after_settlement,
        s.terminal is Some,
        !(update is PermissionCancelled),
    ensures
        ({
            let r = invocation_transition(
                s,
                InvocationEvent::Observation { own: true, well_formed: true, update, retainable },
            );
            let stopped = invocation_transition(r.0, InvocationEvent::ObservationStopped { confirmed });
            &&& r.1.stop_for == Some(
                if update is Finished {
                    ObservationFault::DuplicateTerminal
                } else {
                    ObservationFault::OutputAfterTerminal
                },
            )
            &&& stopped.0.observation_failed && stopped.0.ended
        }),
{
}

/// The loop is left only when the invocation is settled and reads no more, when a
/// stop arrived before execution began, or when no earlier source was ready after
/// unconfirmed cleanup or a complete drain.
pub proof fn law_loop_leaves_only_when_done(s: InvocationLoop, e: InvocationEvent)
    ensures
        ({
            let r = invocation_transition(s, e);
            !s.left && r.0.left ==> (r.0.settled && r.0.ended) || e == (InvocationEvent::StopNotice {
                started: false,
            }) || (e == InvocationEvent::ReadyToLeave && (s.stop_after_settlement || drain_complete(s)))
        }),
{
}

/// What the loop has established stays: a left loop stays left, a settled
/// invocation stays settled, a terminal outcome is never replaced, and a failure
/// once recorded stays recorded.
pub proof fn law_loop_keeps_what_it_established(s: InvocationLoop, e: InvocationEvent)
    ensures
        ({
            let r = invocation_transition(s, e);
            &&& s.left ==> r.0 == s
            &&& s.settled ==> r.0.settled
            &&& s.terminal is Some ==> r.0.terminal == s.terminal
            &&& s.storage_failed ==> r.0.storage_failed
            &&& s.observation_failed ==> r.0.observation_failed
        }),
{
}

} // verus!
