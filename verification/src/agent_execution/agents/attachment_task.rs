//! The decisions of the task that starts a provider attachment: audit the start,
//! attach and publish, and on failure record it, audit it, keep its evidence and
//! shut the session down. [`attachment_step`] takes the task's state and the
//! outcome of the last piece of outside work to the next state and the work to do.
use super::attachment::AttachmentFailureCode;
use super::AgentError;
use crate::agent_execution::executions::{AttachmentAuditCause, AttachmentAuditRecord, AttachmentAuditStage};
use crate::agent_execution::permissions::ActionContext;
use crate::domain::attachment::AttachmentCause;
use crate::domain::ids::SessionId;
use vstd::prelude::*;

verus! {

/// Where the attachment task stands.
#[derive(Clone, Copy, Debug, PartialEq, Eq, Structural)]
pub enum AttachmentPhase {
    /// Saving the audit record of the start.
    AuditingStart,
    /// Attaching, publishing and acknowledging the provider context.
    Attaching,
    /// Recording the failure in the lifecycle.
    RecordingFailure,
    /// Saving the audit record of the failure.
    AuditingFailure,
    /// Shutting the session down after the failure.
    ShuttingDown,
    /// The result is settled.
    Done,
}

/// The task's own state.
#[derive(Clone, Copy, Debug, PartialEq, Eq, Structural)]
pub struct AttachmentTask {
    /// Where the task stands.
    pub phase: AttachmentPhase,
    /// The attempt failed; `code` is its category.
    pub failed: bool,
    /// Category of the failure, once it failed.
    pub code: AttachmentFailureCode,
    /// The lifecycle took the failure: the attempt was still current.
    pub transitioned: bool,
    /// The failure's own audit record could not be saved.
    pub failure_audit_failed: bool,
    /// Cleanup after the failure failed.
    pub cleanup_failed: bool,
}

/// The outcome of the outside work the task asked for.
#[derive(Clone, Copy, Debug, PartialEq, Eq, Structural)]
pub enum AttachmentEvent {
    /// The start was audited.
    StartAudited,
    /// Auditing the start failed in this category.
    StartAuditFailed(AttachmentFailureCode),
    /// The context was attached, published and acknowledged.
    Attached,
    /// Attaching failed in this category.
    AttachFailed(AttachmentFailureCode),
    /// The lifecycle recorded the failure, or the attempt was no longer current.
    FailureRecorded { transitioned: bool },
    /// The failure's audit record was saved, or not.
    FailureAudited { saved: bool },
    /// The session shutdown finished, cleanly or not.
    CleanedUp { clean: bool },
}

/// The work a step asks for, in this order.
#[derive(Clone, Copy, Debug, PartialEq, Eq, Structural)]
pub struct AttachmentAction {
    /// Attach, publish and acknowledge the provider context.
    pub run_attachment: bool,
    /// Record the failure, with its category, in the lifecycle.
    pub record_failure: bool,
    /// Save the failure's audit record: [`AttachmentAuditStep::Failed`].
    pub audit_failure: bool,
    /// Keep the original failure as the attachment's evidence failure.
    pub retain_original: bool,
    /// Keep the failure audit's own error as the evidence failure.
    pub retain_audit_error: bool,
    /// Shut the session down after the failure.
    pub shut_down: bool,
    /// Start the scheduler's runner.
    pub start_runner: bool,
    /// Settle the attachment wait with the result.
    pub settle: bool,
}

/// The state a task starts in.
pub open spec fn attachment_start() -> AttachmentTask {
    AttachmentTask {
        phase: AttachmentPhase::AuditingStart,
        failed: false,
        code: AttachmentFailureCode::Provider,
        transitioned: false,
        failure_audit_failed: false,
        cleanup_failed: false,
    }
}

/// No work.
pub open spec fn idle() -> AttachmentAction {
    AttachmentAction {
        run_attachment: false,
        record_failure: false,
        audit_failure: false,
        retain_original: false,
        retain_audit_error: false,
        shut_down: false,
        start_runner: false,
        settle: false,
    }
}

/// The attempt failed in category `code`: record it.
pub open spec fn failing(t: AttachmentTask, code: AttachmentFailureCode) -> (AttachmentTask, AttachmentAction) {
    (
        AttachmentTask { phase: AttachmentPhase::RecordingFailure, failed: true, code, ..t },
        AttachmentAction { record_failure: true, ..idle() },
    )
}

/// The next state and the work to do after `e` in state `t`. An outcome the task
/// does not wait for in `t` changes nothing.
pub open spec fn attachment_transition(t: AttachmentTask, e: AttachmentEvent) -> (AttachmentTask, AttachmentAction) {
    match (t.phase, e) {
        (AttachmentPhase::AuditingStart, AttachmentEvent::StartAudited) => (
            AttachmentTask { phase: AttachmentPhase::Attaching, ..t },
            AttachmentAction { run_attachment: true, ..idle() },
        ),
        (AttachmentPhase::AuditingStart, AttachmentEvent::StartAuditFailed(code)) => failing(t, code),
        (AttachmentPhase::Attaching, AttachmentEvent::Attached) => (
            AttachmentTask { phase: AttachmentPhase::Done, ..t },
            AttachmentAction { start_runner: true, settle: true, ..idle() },
        ),
        (AttachmentPhase::Attaching, AttachmentEvent::AttachFailed(code)) => failing(t, code),
        (AttachmentPhase::RecordingFailure, AttachmentEvent::FailureRecorded { transitioned }) => if !transitioned {
            (
                AttachmentTask { phase: AttachmentPhase::Done, transitioned: false, ..t },
                AttachmentAction { retain_original: t.code == AttachmentFailureCode::Audit, settle: true, ..idle() },
            )
        } else if t.code != AttachmentFailureCode::Audit {
            (
                AttachmentTask { phase: AttachmentPhase::AuditingFailure, transitioned: true, ..t },
                AttachmentAction { audit_failure: true, ..idle() },
            )
        } else {
            (
                AttachmentTask { phase: AttachmentPhase::ShuttingDown, transitioned: true, ..t },
                AttachmentAction { retain_original: true, shut_down: true, ..idle() },
            )
        },
        (AttachmentPhase::AuditingFailure, AttachmentEvent::FailureAudited { saved }) => (
            AttachmentTask { phase: AttachmentPhase::ShuttingDown, failure_audit_failed: !saved, ..t },
            AttachmentAction { retain_audit_error: !saved, shut_down: true, ..idle() },
        ),
        (AttachmentPhase::ShuttingDown, AttachmentEvent::CleanedUp { clean }) => (
            AttachmentTask { phase: AttachmentPhase::Done, cleanup_failed: !clean, ..t },
            AttachmentAction { settle: true, ..idle() },
        ),
        _ => (t, idle()),
    }
}

fn no_work() -> (r: AttachmentAction)
    ensures
        r == idle(),
{
    AttachmentAction {
        run_attachment: false,
        record_failure: false,
        audit_failure: false,
        retain_original: false,
        retain_audit_error: false,
        shut_down: false,
        start_runner: false,
        settle: false,
    }
}

/// Takes the attachment task from `t` past the outcome `e`: the next state, and
/// the work to do; see [`attachment_transition`].
pub fn attachment_step(t: AttachmentTask, e: AttachmentEvent) -> (r: (AttachmentTask, AttachmentAction))
    ensures
        r == attachment_transition(t, e),
{
    match (t.phase, e) {
        (AttachmentPhase::AuditingStart, AttachmentEvent::StartAudited) => (
            AttachmentTask { phase: AttachmentPhase::Attaching, ..t },
            AttachmentAction { run_attachment: true, ..no_work() },
        ),
        (AttachmentPhase::Attaching, AttachmentEvent::Attached) => (
            AttachmentTask { phase: AttachmentPhase::Done, ..t },
            AttachmentAction { start_runner: true, settle: true, ..no_work() },
        ),
        (AttachmentPhase::AuditingStart, AttachmentEvent::StartAuditFailed(code))
        | (AttachmentPhase::Attaching, AttachmentEvent::AttachFailed(code)) => (
            AttachmentTask { phase: AttachmentPhase::RecordingFailure, failed: true, code, ..t },
            AttachmentAction { record_failure: true, ..no_work() },
        ),
        (AttachmentPhase::RecordingFailure, AttachmentEvent::FailureRecorded { transitioned }) => {
            let audit = t.code == AttachmentFailureCode::Audit;
            if !transitioned {
                (
                    AttachmentTask { phase: AttachmentPhase::Done, transitioned: false, ..t },
                    AttachmentAction { retain_original: audit, settle: true, ..no_work() },
                )
            } else if !audit {
                (
                    AttachmentTask { phase: AttachmentPhase::AuditingFailure, transitioned: true, ..t },
                    AttachmentAction { audit_failure: true, ..no_work() },
                )
            } else {
                (
                    AttachmentTask { phase: AttachmentPhase::ShuttingDown, transitioned: true, ..t },
                    AttachmentAction { retain_original: true, shut_down: true, ..no_work() },
                )
            }
        },
        (AttachmentPhase::AuditingFailure, AttachmentEvent::FailureAudited { saved }) => (
            AttachmentTask { phase: AttachmentPhase::ShuttingDown, failure_audit_failed: !saved, ..t },
            AttachmentAction { retain_audit_error: !saved, shut_down: true, ..no_work() },
        ),
        (AttachmentPhase::ShuttingDown, AttachmentEvent::CleanedUp { clean }) => (
            AttachmentTask { phase: AttachmentPhase::Done, cleanup_failed: !clean, ..t },
            AttachmentAction { settle: true, ..no_work() },
        ),
        _ => (t, no_work()),
    }
}

impl AttachmentTask {
    /// The state a task starts in: auditing its start.
    pub fn start() -> (r: Self)
        ensures
            r == attachment_start(),
    {
        AttachmentTask {
            phase: AttachmentPhase::AuditingStart,
            failed: false,
            code: AttachmentFailureCode::Provider,
            transitioned: false,
            failure_audit_failed: false,
            cleanup_failed: false,
        }
    }
}

/// The audit records an attachment start writes.
#[derive(Clone, Copy, Debug, PartialEq, Eq, Structural)]
pub enum AttachmentAuditStep {
    /// The attempt started for this cause.
    Started(AttachmentCause),
    /// Its provider context was published.
    Published,
    /// The attempt failed.
    Failed,
}

/// Stages and cause of the audit record an attachment start writes for `step`:
/// waiting to starting when it starts, starting to context-published when its
/// context is published, and starting to failed when it fails.
pub open spec fn audit_transition(step: AttachmentAuditStep) -> (
    AttachmentAuditStage,
    AttachmentAuditStage,
    AttachmentAuditCause,
) {
    match step {
        AttachmentAuditStep::Started(cause) => (
            AttachmentAuditStage::Waiting,
            AttachmentAuditStage::Starting,
            AttachmentAuditCause::Started(cause),
        ),
        AttachmentAuditStep::Published => (
            AttachmentAuditStage::Starting,
            AttachmentAuditStage::ContextPublished,
            AttachmentAuditCause::Published,
        ),
        AttachmentAuditStep::Failed => (
            AttachmentAuditStage::Starting,
            AttachmentAuditStage::Failed,
            AttachmentAuditCause::Failed,
        ),
    }
}

/// The audit record an attachment start writes for `step`, attributed to
/// `actor`; see [`audit_transition`].
pub fn attachment_audit(
    session_id: SessionId,
    generation: u64,
    step: AttachmentAuditStep,
    actor: Option<ActionContext>,
) -> (r: AttachmentAuditRecord)
    ensures
        r.spec_session_id() == session_id,
        r.spec_generation() == generation,
        (r.spec_before(), r.spec_after(), r.spec_cause()) == audit_transition(step),
        r.spec_actor() == actor,
{
    let (before, after, cause) = match step {
        AttachmentAuditStep::Started(c) => (
            AttachmentAuditStage::Waiting,
            AttachmentAuditStage::Starting,
            AttachmentAuditCause::Started(c),
        ),
        AttachmentAuditStep::Published => (
            AttachmentAuditStage::Starting,
            AttachmentAuditStage::ContextPublished,
            AttachmentAuditCause::Published,
        ),
        AttachmentAuditStep::Failed => (
            AttachmentAuditStage::Starting,
            AttachmentAuditStage::Failed,
            AttachmentAuditCause::Failed,
        ),
    };
    AttachmentAuditRecord::new(session_id, generation, before, after, cause, actor)
}

/// The result an attempt settles with: success, or its original failure, beside
/// the failure audit's error when that audit failed, and beside the cleanup
/// failure when cleanup failed.
pub open spec fn attachment_outcome(
    original: Option<AgentError>,
    audit_error: Option<AgentError>,
    cleanup_error: Option<AgentError>,
) -> Result<(), AgentError> {
    match original {
        None => Ok(()),
        Some(o) => {
            let operation = match audit_error {
                Some(a) => AgentError::MultipleOperationFailures {
                    first_error: Box::new(o),
                    subsequent_error: Box::new(a),
                },
                None => o,
            };
            Err(
                match cleanup_error {
                    Some(c) => AgentError::OperationAndCleanupFailure {
                        operation_error: Box::new(operation),
                        cleanup_error: Box::new(c),
                    },
                    None => operation,
                },
            )
        },
    }
}

/// Assembles the result an attempt settles with; see [`attachment_outcome`].
pub fn attachment_result(
    original: Option<AgentError>,
    audit_error: Option<AgentError>,
    cleanup_error: Option<AgentError>,
) -> (r: Result<(), AgentError>)
    ensures
        r == attachment_outcome(original, audit_error, cleanup_error),
{
    match original {
        None => Ok(()),
        Some(o) => {
            let operation = match audit_error {
                Some(a) => AgentError::MultipleOperationFailures {
                    first_error: Box::new(o),
                    subsequent_error: Box::new(a),
                },
                None => o,
            };
            Err(
                match cleanup_error {
                    Some(c) => AgentError::OperationAndCleanupFailure {
                        operation_error: Box::new(operation),
                        cleanup_error: Box::new(c),
                    },
                    None => operation,
                },
            )
        },
    }
}

/// Whether `t` can arise from [`attachment_start`]: before the attempt failed
/// nothing of a failure is recorded.
pub open spec fn attachment_reachable(t: AttachmentTask) -> bool {
    (t.phase == AttachmentPhase::AuditingStart || t.phase == AttachmentPhase::Attaching) ==> !t.failed
        && !t.transitioned
}

/// Every step keeps the task in the states that can arise from its start.
pub proof fn law_attachment_steps_stay_reachable(t: AttachmentTask, e: AttachmentEvent)
    requires
        attachment_reachable(t),
    ensures
        attachment_reachable(attachment_transition(t, e).0),
        attachment_reachable(attachment_start()),
{
}

/// A failure the lifecycle took is settled only after the session was shut down,
/// and the result is settled exactly when the task reaches its end.
pub proof fn law_taken_failures_shut_down_before_settling(t: AttachmentTask, e: AttachmentEvent)
    requires
        attachment_reachable(t),
    ensures
        ({
            let r = attachment_transition(t, e);
            &&& r.1.settle <==> (t.phase != AttachmentPhase::Done && r.0.phase == AttachmentPhase::Done)
            &&& (r.1.settle && r.0.failed && r.0.transitioned) ==> t.phase == AttachmentPhase::ShuttingDown
        }),
{
}

/// A failed audit is never audited again, and only a successful attempt starts
/// the runner.
pub proof fn law_audit_failures_are_not_audited_and_failures_never_run(t: AttachmentTask, e: AttachmentEvent)
    requires
        attachment_reachable(t),
    ensures
        ({
            let r = attachment_transition(t, e);
            &&& r.1.audit_failure ==> r.0.code != AttachmentFailureCode::Audit
            &&& r.1.start_runner ==> !r.0.failed
        }),
{
}

} // verus!
