//! Mandatory execution lifecycle evidence, independent of live event consumers.
use crate::agent_execution::agents::AgentError;
use crate::agent_execution::permissions::{
    origin_permits, ActionContext, CancellationOrigin, PermissionAnswerRecord,
    PermissionCancellation, ReviewDeclineRecord,
};
use crate::domain::attachment::AttachmentCause;
use crate::domain::ids::{ExecutionId, SessionId};
use crate::domain::scheduling::{
    legal_edge, target_agrees, InvocationKind, InvocationStage, QueueOrderChange, SchedulingCause,
    SchedulingInitiator, SchedulingTransition, SchedulingTransitionError, SubmissionMode,
};
use crate::domain::session::{ExecutionFinish, SessionClosure};
use vstd::prelude::*;

verus! {

/// Audited lifecycle stage of one provider attachment attempt.
#[derive(Clone, Copy, Debug, PartialEq, Eq, Structural)]
pub enum AttachmentAuditStage {
    /// No attachment attempt is authorized.
    Absent,
    /// One authorization is waiting to start.
    Waiting,
    /// The provider-open task is running.
    Starting,
    /// Provider context is saved but not yet dispatchable.
    ContextPublished,
    /// The provider context is usable.
    Attached,
    /// The attempt ended without a usable context.
    Failed,
}

/// Why an attachment lifecycle transition occurred.
#[derive(Clone, Copy, Debug, PartialEq, Eq, Structural)]
pub enum AttachmentAuditCause {
    /// The authorized attempt started for its cause.
    Started(AttachmentCause),
    /// Its unused authorization was dropped.
    AuthorizationAbandoned,
    /// Session closure cancelled it.
    Closed,
    /// Startup and context publication succeeded.
    Published,
    /// Audit, startup, publication, or cleanup failed.
    Failed,
}

/// Attributed before/after evidence for one attachment lifecycle transition.
#[derive(Debug, PartialEq, Eq)]
pub struct AttachmentAuditRecord {
    session_id: SessionId,
    generation: u64,
    before: AttachmentAuditStage,
    after: AttachmentAuditStage,
    cause: AttachmentAuditCause,
    actor: Option<ActionContext>,
}

impl AttachmentAuditRecord {
    /// Owning session.
    pub closed spec fn spec_session_id(self) -> SessionId {
        self.session_id
    }

    /// Attachment generation.
    pub closed spec fn spec_generation(self) -> u64 {
        self.generation
    }

    /// Stage before.
    pub closed spec fn spec_before(self) -> AttachmentAuditStage {
        self.before
    }

    /// Stage after.
    pub closed spec fn spec_after(self) -> AttachmentAuditStage {
        self.after
    }

    /// Cause.
    pub closed spec fn spec_cause(self) -> AttachmentAuditCause {
        self.cause
    }

    /// Explicit caller.
    pub closed spec fn spec_actor(self) -> Option<ActionContext> {
        self.actor
    }

    /// Records an attachment transition exactly.
    pub fn new(
        session_id: SessionId,
        generation: u64,
        before: AttachmentAuditStage,
        after: AttachmentAuditStage,
        cause: AttachmentAuditCause,
        actor: Option<ActionContext>,
    ) -> (r: Self)
        ensures
            r.spec_session_id() == session_id,
            r.spec_generation() == generation,
            r.spec_before() == before,
            r.spec_after() == after,
            r.spec_cause() == cause,
            r.spec_actor() == actor,
    {
        AttachmentAuditRecord { session_id, generation, before, after, cause, actor }
    }

    /// Session whose attachment changed.
    pub fn session_id(&self) -> (r: &SessionId)
        ensures
            *r == self.spec_session_id(),
    {
        &self.session_id
    }

    /// Affected attachment generation.
    pub fn generation(&self) -> (r: u64)
        ensures
            r == self.spec_generation(),
    {
        self.generation
    }

    /// Stage before the transition.
    pub fn before(&self) -> (r: AttachmentAuditStage)
        ensures
            r == self.spec_before(),
    {
        self.before
    }

    /// Stage after the transition.
    pub fn after(&self) -> (r: AttachmentAuditStage)
        ensures
            r == self.spec_after(),
    {
        self.after
    }

    /// Transition cause.
    pub fn cause(&self) -> (r: AttachmentAuditCause)
        ensures
            r == self.spec_cause(),
    {
        self.cause
    }

    /// Verified caller for explicit causes.
    pub fn actor(&self) -> (r: Option<&ActionContext>)
        ensures
            r is Some <==> self.spec_actor() is Some,
            r is Some ==> *r->0 == self.spec_actor()->0,
    {
        match &self.actor {
            Some(a) => Some(a),
            None => None,
        }
    }
}

/// Audited ownership stage for a submitted input.
#[derive(Clone, Copy, Debug, PartialEq, Eq, Structural)]
pub enum AdmissionAuditStage {
    /// The SDK has not accepted the input.
    Unowned,
    /// The SDK owns the input and its settlement receipt.
    Owned,
}

/// Why input ownership changed.
#[derive(Clone, Copy, Debug, PartialEq, Eq, Structural)]
pub enum AdmissionAuditCause {
    /// A verified caller submitted the input.
    Submitted,
}

/// Evidence that an admitted queued input settled before provider dispatch.
#[derive(Debug, PartialEq, Eq)]
pub struct QueueSettlementRecord {
    session_id: SessionId,
    execution_id: ExecutionId,
    transition: SchedulingTransition,
    submitted_by: ActionContext,
    initiated_by: Option<ActionContext>,
}

impl QueueSettlementRecord {
    /// Owning session.
    pub closed spec fn spec_session_id(self) -> SessionId {
        self.session_id
    }

    /// Queued input.
    pub closed spec fn spec_execution_id(self) -> ExecutionId {
        self.execution_id
    }

    /// Recorded transition.
    pub closed spec fn spec_transition(self) -> SchedulingTransition {
        self.transition
    }

    /// Original submitter.
    pub closed spec fn spec_submitted_by(self) -> ActionContext {
        self.submitted_by
    }

    /// Caller that caused the settlement.
    pub closed spec fn spec_initiated_by(self) -> Option<ActionContext> {
        self.initiated_by
    }

    /// Automatic dispatch failure of caller-attributed queued input; refuses a kind
    /// that contradicts its target.
    pub fn automatic_attachment_failed(
        session_id: SessionId,
        execution_id: ExecutionId,
        kind: InvocationKind,
        target: Option<ExecutionId>,
        actor: ActionContext,
    ) -> (r: Result<Self, SchedulingTransitionError>)
        ensures
            r is Ok <==> target_agrees(kind, target is Some),
            r matches Err(e) ==> e == SchedulingTransitionError::TargetMismatch,
            r matches Ok(x) ==> {
                &&& x.spec_session_id() == session_id
                &&& x.spec_execution_id() == execution_id
                &&& x.spec_submitted_by() == actor
                &&& x.spec_initiated_by() is None
                &&& x.spec_transition().spec_kind() == kind
                &&& x.spec_transition().spec_target() == target
                &&& x.spec_transition().spec_before() == Some(InvocationStage::Queued)
                &&& x.spec_transition().spec_stage() == InvocationStage::Settled
                &&& x.spec_transition().spec_cause() == SchedulingCause::DispatchFailed
                &&& x.spec_transition().spec_initiator() == SchedulingInitiator::Automatic
            },
    {
        let transition = SchedulingTransition::new(
            kind,
            target,
            Some(InvocationStage::Queued),
            InvocationStage::Settled,
            SchedulingCause::DispatchFailed,
            SchedulingInitiator::Automatic,
        )?;
        Ok(QueueSettlementRecord { session_id, execution_id, transition, submitted_by: actor, initiated_by: None })
    }

    /// Cancellation of caller-attributed queued input; the initiator is the caller
    /// when `initiated_by` is present, else automatic. Refuses a kind that contradicts
    /// its target, then a cause that this initiator cannot have.
    pub fn cancelled(
        session_id: SessionId,
        execution_id: ExecutionId,
        kind: InvocationKind,
        target: Option<ExecutionId>,
        cause: SchedulingCause,
        submitted_by: ActionContext,
        initiated_by: Option<ActionContext>,
    ) -> (r: Result<Self, SchedulingTransitionError>)
        ensures
            ({
                let initiator = if initiated_by is Some {
                    SchedulingInitiator::Caller
                } else {
                    SchedulingInitiator::Automatic
                };
                &&& r is Ok <==> target_agrees(kind, target is Some) && legal_edge(
                    Some(InvocationStage::Queued),
                    InvocationStage::Cancelled,
                    cause,
                    initiator,
                )
                &&& r matches Ok(x) ==> {
                    &&& x.spec_session_id() == session_id
                    &&& x.spec_execution_id() == execution_id
                    &&& x.spec_submitted_by() == submitted_by
                    &&& x.spec_initiated_by() == initiated_by
                    &&& x.spec_transition().spec_kind() == kind
                    &&& x.spec_transition().spec_target() == target
                    &&& x.spec_transition().spec_before() == Some(InvocationStage::Queued)
                    &&& x.spec_transition().spec_stage() == InvocationStage::Cancelled
                    &&& x.spec_transition().spec_cause() == cause
                    &&& x.spec_transition().spec_initiator() == initiator
                }
            }),
    {
        let initiator = if initiated_by.is_some() {
            SchedulingInitiator::Caller
        } else {
            SchedulingInitiator::Automatic
        };
        let transition = SchedulingTransition::new(
            kind,
            target,
            Some(InvocationStage::Queued),
            InvocationStage::Cancelled,
            cause,
            initiator,
        )?;
        Ok(QueueSettlementRecord { session_id, execution_id, transition, submitted_by, initiated_by })
    }

    /// Session that owned the queued input.
    pub fn session_id(&self) -> (r: &SessionId)
        ensures
            *r == self.spec_session_id(),
    {
        &self.session_id
    }

    /// Identity of the queued input.
    pub fn execution_id(&self) -> (r: &ExecutionId)
        ensures
            *r == self.spec_execution_id(),
    {
        &self.execution_id
    }

    /// Steering target, when steering.
    pub fn target(&self) -> (r: Option<&ExecutionId>)
        ensures
            r is Some <==> self.spec_transition().spec_target() is Some,
            r is Some ==> *r->0 == self.spec_transition().spec_target()->0,
    {
        self.transition.target()
    }

    /// Delivery mode retained at admission: queued input, or boundary steering.
    pub fn mode(&self) -> (r: SubmissionMode)
        ensures
            r == if self.spec_transition().spec_kind() == InvocationKind::Queued {
                SubmissionMode::Queued
            } else {
                SubmissionMode::BoundarySteering
            },
    {
        match self.transition.kind() {
            InvocationKind::Queued => SubmissionMode::Queued,
            InvocationKind::Steering => SubmissionMode::BoundarySteering,
        }
    }

    /// Original verified submitter.
    pub fn submitted_by(&self) -> (r: &ActionContext)
        ensures
            *r == self.spec_submitted_by(),
    {
        &self.submitted_by
    }

    /// Verified caller that caused the transition.
    pub fn initiated_by(&self) -> (r: Option<&ActionContext>)
        ensures
            r is Some <==> self.spec_initiated_by() is Some,
            r is Some ==> *r->0 == self.spec_initiated_by()->0,
    {
        match &self.initiated_by {
            Some(a) => Some(a),
            None => None,
        }
    }

    /// Stage before.
    pub fn before(&self) -> (r: Option<InvocationStage>)
        ensures
            r == self.spec_transition().spec_before(),
    {
        self.transition.before()
    }

    /// Stage after.
    pub fn after(&self) -> (r: InvocationStage)
        ensures
            r == self.spec_transition().spec_stage(),
    {
        self.transition.stage()
    }

    /// Cause of settlement or cancellation.
    pub fn cause(&self) -> (r: SchedulingCause)
        ensures
            r == self.spec_transition().spec_cause(),
    {
        self.transition.cause()
    }

    /// Initiator classification.
    pub fn initiator(&self) -> (r: SchedulingInitiator)
        ensures
            r == self.spec_transition().spec_initiator(),
    {
        self.transition.initiator()
    }
}

/// Audited delivery stage for native steering.
#[derive(Clone, Copy, Debug, PartialEq, Eq, Structural)]
pub enum SteeringAuditStage {
    /// Accepted locally; no provider effect confirmed.
    Pending,
    /// The provider confirmed injection.
    Injected,
}

/// Why native steering delivery changed stage.
#[derive(Clone, Copy, Debug, PartialEq, Eq, Structural)]
pub enum SteeringAuditCause {
    /// The provider acknowledged the input.
    ProviderAcknowledged,
}

/// Attributed provider acknowledgement of native steering.
#[derive(Debug, PartialEq, Eq)]
pub struct SteeringAcknowledgementRecord {
    session_id: SessionId,
    execution_id: ExecutionId,
    target: ExecutionId,
    actor: ActionContext,
    before: SteeringAuditStage,
    after: SteeringAuditStage,
    cause: SteeringAuditCause,
}

impl SteeringAcknowledgementRecord {
    /// Owning session.
    pub closed spec fn spec_session_id(self) -> SessionId {
        self.session_id
    }

    /// Steering input.
    pub closed spec fn spec_execution_id(self) -> ExecutionId {
        self.execution_id
    }

    /// Steered execution.
    pub closed spec fn spec_target(self) -> ExecutionId {
        self.target
    }

    /// Caller.
    pub closed spec fn spec_actor(self) -> ActionContext {
        self.actor
    }

    /// Stage before.
    pub closed spec fn spec_before(self) -> SteeringAuditStage {
        self.before
    }

    /// Stage after.
    pub closed spec fn spec_after(self) -> SteeringAuditStage {
        self.after
    }

    /// Cause.
    pub closed spec fn spec_cause(self) -> SteeringAuditCause {
        self.cause
    }

    /// Provider-confirmed injection: from Pending to Injected.
    pub fn provider_acknowledged(
        session_id: SessionId,
        execution_id: ExecutionId,
        target: ExecutionId,
        actor: ActionContext,
    ) -> (r: Self)
        ensures
            r.spec_session_id() == session_id,
            r.spec_execution_id() == execution_id,
            r.spec_target() == target,
            r.spec_actor() == actor,
            r.spec_before() == SteeringAuditStage::Pending,
            r.spec_after() == SteeringAuditStage::Injected,
            r.spec_cause() == SteeringAuditCause::ProviderAcknowledged,
    {
        SteeringAcknowledgementRecord {
            session_id,
            execution_id,
            target,
            actor,
            before: SteeringAuditStage::Pending,
            after: SteeringAuditStage::Injected,
            cause: SteeringAuditCause::ProviderAcknowledged,
        }
    }

    /// Session whose provider accepted the input.
    pub fn session_id(&self) -> (r: &SessionId)
        ensures
            *r == self.spec_session_id(),
    {
        &self.session_id
    }

    /// Steering input identity.
    pub fn execution_id(&self) -> (r: &ExecutionId)
        ensures
            *r == self.spec_execution_id(),
    {
        &self.execution_id
    }

    /// Execution that accepted the input.
    pub fn target(&self) -> (r: &ExecutionId)
        ensures
            *r == self.spec_target(),
    {
        &self.target
    }

    /// Verified caller.
    pub fn actor(&self) -> (r: &ActionContext)
        ensures
            *r == self.spec_actor(),
    {
        &self.actor
    }

    /// Stage before acknowledgement.
    pub fn before(&self) -> (r: SteeringAuditStage)
        ensures
            r == self.spec_before(),
    {
        self.before
    }

    /// Stage after acknowledgement.
    pub fn after(&self) -> (r: SteeringAuditStage)
        ensures
            r == self.spec_after(),
    {
        self.after
    }

    /// Delivery cause.
    pub fn cause(&self) -> (r: SteeringAuditCause)
        ensures
            r == self.spec_cause(),
    {
        self.cause
    }
}

/// Attributed evidence that the SDK accepted one input.
#[derive(Debug, PartialEq, Eq)]
pub struct QueueAdmissionRecord {
    session_id: SessionId,
    execution_id: ExecutionId,
    mode: SubmissionMode,
    actor: ActionContext,
    before: AdmissionAuditStage,
    after: AdmissionAuditStage,
    cause: AdmissionAuditCause,
}

impl QueueAdmissionRecord {
    /// Owning session.
    pub closed spec fn spec_session_id(self) -> SessionId {
        self.session_id
    }

    /// Submitted input.
    pub closed spec fn spec_execution_id(self) -> ExecutionId {
        self.execution_id
    }

    /// Delivery mode.
    pub closed spec fn spec_mode(self) -> SubmissionMode {
        self.mode
    }

    /// Caller.
    pub closed spec fn spec_actor(self) -> ActionContext {
        self.actor
    }

    /// Stage before.
    pub closed spec fn spec_before(self) -> AdmissionAuditStage {
        self.before
    }

    /// Stage after.
    pub closed spec fn spec_after(self) -> AdmissionAuditStage {
        self.after
    }

    /// Cause.
    pub closed spec fn spec_cause(self) -> AdmissionAuditCause {
        self.cause
    }

    /// Caller-attributed ownership: from Unowned to Owned, by submission.
    pub fn submitted(session_id: SessionId, execution_id: ExecutionId, mode: SubmissionMode, actor: ActionContext) -> (r:
        Self)
        ensures
            r.spec_session_id() == session_id,
            r.spec_execution_id() == execution_id,
            r.spec_mode() == mode,
            r.spec_actor() == actor,
            r.spec_before() == AdmissionAuditStage::Unowned,
            r.spec_after() == AdmissionAuditStage::Owned,
            r.spec_cause() == AdmissionAuditCause::Submitted,
    {
        QueueAdmissionRecord {
            session_id,
            execution_id,
            mode,
            actor,
            before: AdmissionAuditStage::Unowned,
            after: AdmissionAuditStage::Owned,
            cause: AdmissionAuditCause::Submitted,
        }
    }

    /// Session that owns the receipt.
    pub fn session_id(&self) -> (r: &SessionId)
        ensures
            *r == self.spec_session_id(),
    {
        &self.session_id
    }

    /// Caller-supplied correlation.
    pub fn execution_id(&self) -> (r: &ExecutionId)
        ensures
            *r == self.spec_execution_id(),
    {
        &self.execution_id
    }

    /// Delivery mode.
    pub fn mode(&self) -> (r: SubmissionMode)
        ensures
            r == self.spec_mode(),
    {
        self.mode
    }

    /// Verified caller.
    pub fn actor(&self) -> (r: &ActionContext)
        ensures
            *r == self.spec_actor(),
    {
        &self.actor
    }

    /// Ownership before.
    pub fn before(&self) -> (r: AdmissionAuditStage)
        ensures
            r == self.spec_before(),
    {
        self.before
    }

    /// Ownership after.
    pub fn after(&self) -> (r: AdmissionAuditStage)
        ensures
            r == self.spec_after(),
    {
        self.after
    }

    /// Transition cause.
    pub fn cause(&self) -> (r: AdmissionAuditCause)
        ensures
            r == self.spec_cause(),
    {
        self.cause
    }
}

/// Why a pending dispatch order was replaced.
#[derive(Clone, Copy, Debug, PartialEq, Eq, Structural)]
pub enum QueueOrderCause {
    /// A verified caller requested the replacement order.
    CallerRequested,
}

/// Audited selection of one pending-order replacement.
#[derive(Debug, PartialEq, Eq)]
pub struct QueueOrderRecord {
    session_id: SessionId,
    change: QueueOrderChange,
    actor: ActionContext,
    cause: QueueOrderCause,
}

impl QueueOrderRecord {
    /// Owning session.
    pub closed spec fn spec_session_id(self) -> SessionId {
        self.session_id
    }

    /// Order change.
    pub closed spec fn spec_change(self) -> QueueOrderChange {
        self.change
    }

    /// Caller.
    pub closed spec fn spec_actor(self) -> ActionContext {
        self.actor
    }

    /// Cause.
    pub closed spec fn spec_cause(self) -> QueueOrderCause {
        self.cause
    }

    /// Pairs the session, the validated change and the caller.
    pub fn caller_requested(session_id: SessionId, change: QueueOrderChange, actor: ActionContext) -> (r: Self)
        ensures
            r.spec_session_id() == session_id,
            r.spec_change() == change,
            r.spec_actor() == actor,
            r.spec_cause() == QueueOrderCause::CallerRequested,
    {
        QueueOrderRecord { session_id, change, actor, cause: QueueOrderCause::CallerRequested }
    }

    /// Session whose pending order is affected.
    pub fn session_id(&self) -> (r: &SessionId)
        ensures
            *r == self.spec_session_id(),
    {
        &self.session_id
    }

    /// Before and after order.
    pub fn change(&self) -> (r: &QueueOrderChange)
        ensures
            *r == self.spec_change(),
    {
        &self.change
    }

    /// Verified caller.
    pub fn actor(&self) -> (r: &ActionContext)
        ensures
            *r == self.spec_actor(),
    {
        &self.actor
    }

    /// Cause of the order transition.
    pub fn cause(&self) -> (r: QueueOrderCause)
        ensures
            r == self.spec_cause(),
    {
        self.cause
    }
}

/// The live session's closure paired with its known initiator.
#[derive(Debug, PartialEq, Eq)]
pub struct SessionClosureRecord {
    closure: SessionClosure,
    origin: CancellationOrigin,
}

impl SessionClosureRecord {
    /// Closure evidence.
    pub closed spec fn spec_closure(self) -> SessionClosure {
        self.closure
    }

    /// Initiator.
    pub closed spec fn spec_origin(self) -> CancellationOrigin {
        self.origin
    }

    /// Pairs closure evidence with its initiator; refuses, with InvalidInput, an
    /// initiator that could not have caused the closure's reason.
    pub fn new(closure: SessionClosure, origin: CancellationOrigin) -> (r: Result<Self, AgentError>)
        ensures
            r is Ok <==> origin_permits(origin, closure.reason),
            r matches Ok(x) ==> x.spec_closure() == closure && x.spec_origin() == origin,
            r matches Err(e) ==> e is InvalidInput,
    {
        origin.validate_reason(closure.reason())?;
        Ok(SessionClosureRecord { closure, origin })
    }

    /// Session identity, active execution, and lifecycle reason.
    pub fn closure(&self) -> (r: &SessionClosure)
        ensures
            *r == self.spec_closure(),
    {
        &self.closure
    }

    /// Verified client or labelled automatic origin.
    pub fn origin(&self) -> (r: &CancellationOrigin)
        ensures
            *r == self.spec_origin(),
    {
        &self.origin
    }
}

/// Evidence supplied to the mandatory audit sink in causal order.
#[derive(Debug, PartialEq, Eq)]
pub enum ExecutionAuditRecord {
    /// Attachment transition.
    Attachment(AttachmentAuditRecord),
    /// Caller-attributed transfer of one input into SDK scheduling.
    QueueAdmitted(QueueAdmissionRecord),
    /// Pre-dispatch settlement or cancellation of queued input.
    QueueSettled(QueueSettlementRecord),
    /// Provider acknowledgement of native steering.
    SteeringAcknowledged(SteeringAcknowledgementRecord),
    /// Caller-attributed order replacement.
    QueueReordered(QueueOrderRecord),
    /// Once-only release of an active execution.
    Finished(ExecutionFinish),
    /// Once-only closure of a live session.
    SessionClosed(SessionClosureRecord),
    /// Once-only cancellation of a review.
    Cancelled(PermissionCancellation),
    /// Answer selection or delivery.
    Answered(PermissionAnswerRecord),
    /// Review declined before it was offered.
    ReviewDeclined(ReviewDeclineRecord),
}

} // verus!
