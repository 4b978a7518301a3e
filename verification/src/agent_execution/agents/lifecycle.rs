//! Admission, stop and attachment state of one agent's live session.
//!
//! Each operation is one transition of [`LifecycleState`]. The runtime around it
//! holds the state under a lock and performs what a transition asks for: provider
//! cleanup, attachment audit delivery, and waking the owners it stopped.
use super::attachment::{AttachmentFailure, AttachmentFailureCode, AttachmentPhase, AttachmentRequest, AttachmentStatus};
use super::comparison::err_eq;
use super::error_limits::bounded_as;
use super::AgentError;
use crate::agent_execution::executions::AttachmentAuditStage;
use crate::agent_execution::permissions::{same_context, ActionContext};
use crate::agent_execution::providers::{CleanupReport, SessionCloseRequest};
use crate::agent_execution::sessions::storage::InvocationCancellationEvent;
use crate::domain::attachment::AttachmentCause;
use crate::domain::ids::ExecutionId;
use crate::domain::scheduling::SchedulingCause;
use vstd::prelude::*;

verus! {

/// Who may reopen admission after a stop.
#[derive(Clone, Copy, Debug, PartialEq, Eq, Structural)]
pub enum RecoveryPolicy {
    /// Confirmed cleanup with delivered audit reopens admission.
    Automatic,
    /// Admission was fenced before its owner started cleanup.
    CleanupNotStarted,
    /// Local settlement is unproven; only an explicit close may reopen.
    NeedsExplicitClose,
    /// An explicit close owns the completion boundary.
    ExplicitClose,
}

/// Attachment transitions whose audit delivery a stop waits for.
#[derive(Clone, Copy, Debug, PartialEq, Eq, Structural)]
pub enum EvidenceTransition {
    /// An authorized attempt started.
    Started,
    /// The provider context was published.
    ContextPublished,
    /// The attempt failed.
    Failed,
    /// An authorization was abandoned before it started.
    AuthorizationAbandoned,
    /// A stop closed the waiting or starting attempt.
    Closed,
}

/// One required audit fact: an attachment generation and its transition.
#[derive(Clone, Copy, Debug, PartialEq, Eq, Structural)]
pub struct EvidenceSlot {
    /// Attachment generation.
    pub generation: u64,
    /// Audited transition.
    pub transition: EvidenceTransition,
}

/// What the lifecycle reads of a cleanup report.
#[derive(Clone, Copy, Debug, PartialEq, Eq, Structural)]
pub struct ReportFacts {
    /// Provider resources were released.
    pub confirmed: bool,
    /// Required audit was acknowledged.
    pub audit_ok: bool,
}

/// Whether a report confirms release and acknowledges its audit.
pub open spec fn succeeded(f: ReportFacts) -> bool {
    f.confirmed && f.audit_ok
}

impl ReportFacts {
    /// The facts of `report`.
    pub fn of(report: &CleanupReport) -> (r: Self)
        ensures
            r.confirmed == (report.spec_resources() is Confirmed),
            r.audit_ok == (report.spec_audit() is Ok),
    {
        ReportFacts { confirmed: report.is_confirmed(), audit_ok: report.audit().is_ok() }
    }
}

/// Progress of one admitted owner.
#[derive(Clone, Copy, Debug, PartialEq, Eq, Structural)]
pub enum WorkPhase {
    /// Queued input waiting for a usable attachment.
    Waiting,
    /// An automatic attachment failure settles this queued input.
    Settling,
    /// Admitted to use the attachment.
    Active,
    /// Its execution was entered; dispatch may still be refused.
    Executing,
}

/// One admitted owner and the first stop it observed.
#[derive(Debug)]
pub struct OwnedWork {
    /// Permit identity.
    pub id: u64,
    /// Work generation that admitted or activated it.
    pub work_generation: u64,
    /// Progress.
    pub phase: WorkPhase,
    /// First stop that affected it; later stops never replace it.
    pub cancellation: Option<InvocationCancellationEvent>,
}

/// The recorded physical cleanup of one provider generation.
#[derive(Clone, Copy, Debug, PartialEq, Eq, Structural)]
pub struct CleanupSlot {
    /// Identity of this cleanup, to which its task reports.
    pub serial: u64,
    /// Provider generation whose resources it releases.
    pub provider_generation: u64,
    /// Attempt number.
    pub attempt_id: u64,
    /// Report, once the attempt finished.
    pub report: Option<ReportFacts>,
}

/// Identity, cause and evidence of one stop attempt.
#[derive(Debug)]
pub struct StopTicket {
    /// Stop identity.
    pub id: u64,
    /// Cleanup attempt.
    pub attempt_id: u64,
    /// First request of this stop; later requests never replace it.
    pub request: SessionCloseRequest,
    /// Published final result.
    pub result: Option<ReportFacts>,
    /// Attachment audit facts this stop waits for.
    pub evidence: Vec<EvidenceSlot>,
    /// Facts already joined into a final result.
    pub folded: Vec<EvidenceSlot>,
}

/// Mathematical content of a [`StopTicket`].
pub struct TicketView {
    /// Stop identity.
    pub id: u64,
    /// Cleanup attempt.
    pub attempt_id: u64,
    /// First request.
    pub request: SessionCloseRequest,
    /// Published final result.
    pub result: Option<ReportFacts>,
    /// Awaited facts.
    pub evidence: Seq<EvidenceSlot>,
    /// Joined facts.
    pub folded: Seq<EvidenceSlot>,
}

impl View for StopTicket {
    type V = TicketView;

    open spec fn view(&self) -> TicketView {
        TicketView {
            id: self.id,
            attempt_id: self.attempt_id,
            request: self.request,
            result: self.result,
            evidence: self.evidence@,
            folded: self.folded@,
        }
    }
}

fn copy_slots(v: &Vec<EvidenceSlot>) -> (r: Vec<EvidenceSlot>)
    ensures
        r@ == v@,
{
    let mut out: Vec<EvidenceSlot> = Vec::new();
    let mut i: usize = 0;
    while i < v.len()
        invariant
            i <= v.len(),
            out@ == v@.take(i as int),
        decreases v.len() - i,
    {
        out.push(v[i]);
        proof {
            assert(v@.take(i as int).push(v@[i as int]) == v@.take(i + 1));
        }
        i = i + 1;
    }
    proof {
        assert(v@.take(v.len() as int) == v@);
    }
    out
}

impl StopTicket {
    /// A copy with the same content.
    pub fn duplicate(&self) -> (r: Self)
        ensures
            r@ == self@,
    {
        StopTicket {
            id: self.id,
            attempt_id: self.attempt_id,
            request: self.request.clone(),
            result: self.result,
            evidence: copy_slots(&self.evidence),
            folded: copy_slots(&self.folded),
        }
    }
}

/// A stop in progress.
#[derive(Debug)]
pub struct Stop {
    /// Current attempt.
    pub ticket: StopTicket,
    /// Whether its final result was published.
    pub finalized: bool,
    /// Who may reopen admission.
    pub recovery: RecoveryPolicy,
}

/// Mathematical content of a [`Stop`].
pub struct StopView {
    /// Current attempt.
    pub ticket: TicketView,
    /// Whether its final result was published.
    pub finalized: bool,
    /// Who may reopen admission.
    pub recovery: RecoveryPolicy,
}

/// Admission state.
#[derive(Debug)]
pub enum WorkStatus {
    /// New work is admitted.
    Open,
    /// A stop runs cleanup.
    Stopping(Stop),
    /// Cleanup or its audit failed; admission stays closed.
    Blocked(Stop),
}

/// Mathematical content of a [`WorkStatus`].
pub enum StatusView {
    /// New work is admitted.
    Open,
    /// A stop runs cleanup.
    Stopping(StopView),
    /// Admission stays closed.
    Blocked(StopView),
}

impl View for Stop {
    type V = StopView;

    open spec fn view(&self) -> StopView {
        StopView { ticket: self.ticket@, finalized: self.finalized, recovery: self.recovery }
    }
}

impl View for WorkStatus {
    type V = StatusView;

    open spec fn view(&self) -> StatusView {
        match self {
            WorkStatus::Open => StatusView::Open,
            WorkStatus::Stopping(s) => StatusView::Stopping(s@),
            WorkStatus::Blocked(s) => StatusView::Blocked(s@),
        }
    }
}

/// The stop of a closed status.
pub open spec fn stop_of(s: StatusView) -> Option<StopView> {
    match s {
        StatusView::Open => None,
        StatusView::Stopping(t) => Some(t),
        StatusView::Blocked(t) => Some(t),
    }
}

/// Provider attachment state.
#[derive(Debug)]
pub enum AttachmentStage {
    /// Nothing is attached or starting.
    Absent {
        /// Whether a provider context was recorded before.
        recorded: bool,
    },
    /// One authorization waits to start.
    Authorized {
        /// Authorization identity.
        id: u64,
        /// Work generation that granted it.
        work_generation: u64,
        /// Attachment generation it may start.
        attachment_generation: u64,
        /// Why it attaches.
        cause: AttachmentCause,
        /// Verified caller, if a caller requested it.
        actor: Option<ActionContext>,
    },
    /// An abandoned authorization awaits its audit.
    Abandoning {
        /// Attachment generation after the abandonment.
        generation: u64,
        /// Whether a provider context was recorded before.
        recorded: bool,
    },
    /// One attachment task runs.
    Starting {
        /// Attachment generation.
        generation: u64,
        /// Why it attaches.
        cause: AttachmentCause,
        /// Whether a provider context was recorded before.
        recorded: bool,
    },
    /// A provider context is published.
    Attached {
        /// Attachment generation.
        generation: u64,
        /// Why it attached.
        cause: AttachmentCause,
    },
    /// The most recent attempt failed.
    Failed {
        /// Its diagnostic.
        failure: AttachmentFailure,
        /// Whether a provider context was recorded.
        recorded: bool,
    },
}

/// Mathematical content of a [`LifecycleState`].
pub struct LifecycleView {
    /// Work generation; a stop starts a new one.
    pub work_generation: u64,
    /// Provider generation; starting an attachment starts a new one.
    pub provider_generation: u64,
    /// Only a successful preparation enables controls of this provider generation.
    pub provider_ready: bool,
    /// Admission state.
    pub status: StatusView,
    /// Physical cleanup of the current stop.
    pub cleanup: Option<CleanupSlot>,
    /// Active execution and its work generation.
    pub active: Option<(u64, ExecutionId)>,
    /// Next permit identity.
    pub next_work: u64,
    /// Next cleanup identity.
    pub next_cleanup: u64,
    /// Admitted owners in admission order.
    pub work: Seq<OwnedWork>,
    /// Attachment generation.
    pub attachment_generation: u64,
    /// Next authorization identity.
    pub next_authorization: u64,
    /// Provider attachment.
    pub attachment: AttachmentStage,
    /// Late failure to deliver attachment audit.
    pub evidence_failure: Option<AttachmentFailure>,
    /// Audit facts of the current attachment attempt.
    pub evidence: Seq<EvidenceSlot>,
    /// Whether automatic recovery may reattach.
    pub recovery_ready: bool,
}

/// Admission, stop and attachment state of one agent's live session.
#[derive(Debug)]
pub struct LifecycleState {
    work_generation: u64,
    provider_generation: u64,
    provider_ready: bool,
    status: WorkStatus,
    cleanup: Option<CleanupSlot>,
    active: Option<(u64, ExecutionId)>,
    next_work: u64,
    next_cleanup: u64,
    work: Vec<OwnedWork>,
    attachment_generation: u64,
    next_authorization: u64,
    attachment: AttachmentStage,
    evidence_failure: Option<AttachmentFailure>,
    evidence: Vec<EvidenceSlot>,
    recovery_ready: bool,
}

impl View for LifecycleState {
    type V = LifecycleView;

    closed spec fn view(&self) -> LifecycleView {
        LifecycleView {
            work_generation: self.work_generation,
            provider_generation: self.provider_generation,
            provider_ready: self.provider_ready,
            status: self.status@,
            cleanup: self.cleanup,
            active: self.active,
            next_work: self.next_work,
            next_cleanup: self.next_cleanup,
            work: self.work@,
            attachment_generation: self.attachment_generation,
            next_authorization: self.next_authorization,
            attachment: self.attachment,
            evidence_failure: self.evidence_failure,
            evidence: self.evidence@,
            recovery_ready: self.recovery_ready,
        }
    }
}

/// Permit identities increase in admission order and stay below the next one.
pub open spec fn lifecycle_wf(v: LifecycleView) -> bool {
    &&& forall|i: int, j: int| 0 <= i < j < v.work.len() ==> v.work[i].id < v.work[j].id
    &&& forall|i: int| 0 <= i < v.work.len() ==> v.work[i].id < v.next_work
}

/// Every counter can advance once more.
pub open spec fn headroom(v: LifecycleView) -> bool {
    &&& v.work_generation + 2 <= u64::MAX
    &&& v.provider_generation + 1 <= u64::MAX
    &&& v.next_work + 1 <= u64::MAX
    &&& v.next_cleanup + 1 <= u64::MAX
    &&& v.attachment_generation + 1 <= u64::MAX
    &&& v.next_authorization + 1 <= u64::MAX
    &&& v.cleanup matches Some(c) ==> c.attempt_id + 1 <= u64::MAX
    &&& stop_of(v.status) matches Some(s) ==> s.ticket.attempt_id + 1 <= u64::MAX
}

/// The attachment phase a state projects.
pub open spec fn phase_of(v: LifecycleView) -> AttachmentPhase {
    match v.attachment {
        AttachmentStage::Absent { .. } => AttachmentPhase::Absent,
        AttachmentStage::Authorized { .. } => AttachmentPhase::Waiting,
        AttachmentStage::Abandoning { .. } => AttachmentPhase::Waiting,
        AttachmentStage::Starting { .. } => AttachmentPhase::Starting,
        AttachmentStage::Attached { .. } => if v.provider_ready {
            AttachmentPhase::Attached
        } else {
            AttachmentPhase::Starting
        },
        AttachmentStage::Failed { failure, .. } => AttachmentPhase::Failed(failure.spec_code()),
    }
}

/// Whether a published attachment is ready for provider operations.
pub open spec fn usable(v: LifecycleView) -> bool {
    v.provider_ready && v.attachment is Attached
}

/// Whether a stop still admits queued input: its final result confirmed cleanup
/// with delivered audit, and automatic recovery will reopen admission.
pub open spec fn accepts_waiting(v: LifecycleView) -> bool {
    match v.status {
        StatusView::Stopping(stop) => {
            &&& stop.finalized
            &&& stop.recovery == RecoveryPolicy::Automatic
            &&& !(stop.ticket.request is Explicit)
            &&& stop.ticket.result matches Some(f) && succeeded(f)
        },
        _ => false,
    }
}

/// Whether both optional callers name the same context.
pub open spec fn same_actor(a: Option<ActionContext>, b: Option<ActionContext>) -> bool {
    match (a, b) {
        (None, None) => true,
        (Some(x), Some(y)) => same_context(x, y),
        _ => false,
    }
}

fn same_actor_exec(a: &Option<ActionContext>, b: &Option<ActionContext>) -> (r: bool)
    ensures
        r == same_actor(*a, *b),
{
    match (a, b) {
        (None, None) => true,
        (Some(x), Some(y)) => x.same(y),
        _ => false,
    }
}

fn copy_actor(a: &Option<ActionContext>) -> (r: Option<ActionContext>)
    ensures
        r == *a,
{
    match a {
        Some(x) => Some(x.clone()),
        None => None,
    }
}

impl LifecycleState {
    /// An open lifecycle with nothing attached; `recorded_context` says whether the
    /// session already holds a provider context.
    pub fn new(recorded_context: bool) -> (r: Self)
        ensures
            lifecycle_wf(r@),
            r@ == (LifecycleView {
                work_generation: 0,
                provider_generation: 0,
                provider_ready: false,
                status: StatusView::Open,
                cleanup: None,
                active: None,
                next_work: 0,
                next_cleanup: 0,
                work: Seq::empty(),
                attachment_generation: 0,
                next_authorization: 0,
                attachment: AttachmentStage::Absent { recorded: recorded_context },
                evidence_failure: None,
                evidence: Seq::empty(),
                recovery_ready: false,
            }),
    {
        LifecycleState {
            work_generation: 0,
            provider_generation: 0,
            provider_ready: false,
            status: WorkStatus::Open,
            cleanup: None,
            active: None,
            next_work: 0,
            next_cleanup: 0,
            work: Vec::new(),
            attachment_generation: 0,
            next_authorization: 0,
            attachment: AttachmentStage::Absent { recorded: recorded_context },
            evidence_failure: None,
            evidence: Vec::new(),
            recovery_ready: false,
        }
    }

    /// Whether every counter can advance once more; a transition that would
    /// exhaust one is refused by its precondition.
    pub fn has_headroom(&self) -> (r: bool)
        ensures
            r == headroom(self@),
    {
        let stop_ok = match &self.status {
            WorkStatus::Stopping(s) => s.ticket.attempt_id < u64::MAX,
            WorkStatus::Blocked(s) => s.ticket.attempt_id < u64::MAX,
            WorkStatus::Open => true,
        };
        let cleanup_ok = match self.cleanup {
            Some(c) => c.attempt_id < u64::MAX,
            None => true,
        };
        self.work_generation < u64::MAX - 1 && self.provider_generation < u64::MAX && self.next_work < u64::MAX
            && self.next_cleanup < u64::MAX && self.attachment_generation < u64::MAX && self.next_authorization
            < u64::MAX && cleanup_ok && stop_ok
    }

    /// Whether permit identities increase in admission order below the next one;
    /// every transition keeps this.
    pub fn is_well_formed(&self) -> (r: bool)
        ensures
            r == lifecycle_wf(self@),
    {
        let mut i: usize = 0;
        while i < self.work.len()
            invariant
                i <= self.work@.len(),
                forall|a: int, b: int| 0 <= a < b < i ==> self.work@[a].id < self.work@[b].id,
                forall|a: int| 0 <= a < i ==> self.work@[a].id < self.next_work,
            decreases self.work.len() - i,
        {
            if self.work[i].id >= self.next_work {
                return false;
            }
            if i > 0 && self.work[i - 1].id >= self.work[i].id {
                return false;
            }
            i = i + 1;
        }
        true
    }

    /// Whether admission is closed.
    pub fn is_closed(&self) -> (r: bool)
        ensures
            r == !(self@.status is Open),
    {
        !matches!(self.status, WorkStatus::Open)
    }

    /// Current attachment phase.
    pub fn phase(&self) -> (r: AttachmentPhase)
        ensures
            r == phase_of(self@),
    {
        match &self.attachment {
            AttachmentStage::Absent { .. } => AttachmentPhase::Absent,
            AttachmentStage::Authorized { .. } => AttachmentPhase::Waiting,
            AttachmentStage::Abandoning { .. } => AttachmentPhase::Waiting,
            AttachmentStage::Starting { .. } => AttachmentPhase::Starting,
            AttachmentStage::Attached { .. } => if self.provider_ready {
                AttachmentPhase::Attached
            } else {
                AttachmentPhase::Starting
            },
            AttachmentStage::Failed { failure, .. } => AttachmentPhase::Failed(failure.code()),
        }
    }

    /// Atomic projection of the phase, its failure and any late evidence failure.
    pub fn attachment_status(&self) -> (r: AttachmentStatus)
        ensures
            r.spec_phase() == phase_of(self@),
            (r.spec_failure() is Some) == (self@.attachment is Failed),
            self@.attachment matches AttachmentStage::Failed { failure, .. } ==> {
                &&& r.spec_failure()->0.spec_code() == failure.spec_code()
                &&& r.spec_failure()->0.spec_generation() == failure.spec_generation()
                &&& r.spec_failure()->0.spec_cause() == failure.spec_cause()
                &&& err_eq(failure.spec_error(), r.spec_failure()->0.spec_error())
            },
            (r.spec_evidence_failure() is Some) == (self@.evidence_failure is Some),
            self@.evidence_failure matches Some(f) ==> {
                &&& r.spec_evidence_failure()->0.spec_code() == f.spec_code()
                &&& r.spec_evidence_failure()->0.spec_generation() == f.spec_generation()
                &&& r.spec_evidence_failure()->0.spec_cause() == f.spec_cause()
                &&& err_eq(f.spec_error(), r.spec_evidence_failure()->0.spec_error())
            },
    {
        let phase = self.phase();
        let failure = match &self.attachment {
            AttachmentStage::Failed { failure, .. } => Some(failure.clone()),
            _ => None,
        };
        let evidence_failure = match &self.evidence_failure {
            Some(f) => Some(f.clone()),
            None => None,
        };
        AttachmentStatus::new(phase, failure, evidence_failure)
    }

    /// Whether a published attachment is ready, so that its provider's operation
    /// capabilities apply.
    pub fn is_usable(&self) -> (r: bool)
        ensures
            r == usable(self@),
    {
        self.provider_ready && matches!(self.attachment, AttachmentStage::Attached { .. })
    }

    /// Whether queued input is admitted: admission is open, or a stop still admits
    /// queued input.
    pub fn accepts_queued(&self) -> (r: bool)
        ensures
            r == (self@.status is Open || accepts_waiting(self@)),
    {
        matches!(self.status, WorkStatus::Open) || self.accepts_waiting()
    }

    fn accepts_waiting(&self) -> (r: bool)
        ensures
            r == accepts_waiting(self@),
    {
        match &self.status {
            WorkStatus::Stopping(stop) => {
                stop.finalized && matches!(stop.recovery, RecoveryPolicy::Automatic)
                    && !matches!(stop.ticket.request, SessionCloseRequest::Explicit(_))
                    && match stop.ticket.result {
                    Some(f) => f.confirmed && f.audit_ok,
                    None => false,
                }
            },
            _ => false,
        }
    }

    /// Current work generation. Late failures captured under it affect only it.
    pub fn work_generation(&self) -> (r: u64)
        ensures
            r == self@.work_generation,
    {
        self.work_generation
    }

    /// Identity of the active execution.
    pub fn active(&self) -> (r: Option<ExecutionId>)
        ensures
            r == match self@.active {
                Some((_, id)) => Some(id),
                None => None::<ExecutionId>,
            },
    {
        match &self.active {
            Some((_, id)) => Some(id.clone()),
            None => None,
        }
    }

    /// Whether `generation` is the current starting attempt of an open lifecycle.
    pub fn attachment_current(&self, generation: u64) -> (r: bool)
        ensures
            r == (self@.attachment_generation == generation && self@.status is Open
                && (self@.attachment matches AttachmentStage::Starting { generation: g, .. } && g == generation)),
    {
        self.attachment_generation == generation && matches!(self.status, WorkStatus::Open)
            && match &self.attachment {
            AttachmentStage::Starting { generation: g, .. } => *g == generation,
            _ => false,
        }
    }

    /// Whether `generation` is the current published attachment of an open lifecycle.
    pub fn attachment_published(&self, generation: u64) -> (r: bool)
        ensures
            r == (self@.attachment_generation == generation && self@.status is Open
                && (self@.attachment matches AttachmentStage::Attached { generation: g, .. } && g == generation)),
    {
        self.attachment_generation == generation && matches!(self.status, WorkStatus::Open)
            && match &self.attachment {
            AttachmentStage::Attached { generation: g, .. } => *g == generation,
            _ => false,
        }
    }
}


/// Authority to start one attachment attempt.
#[derive(Debug)]
pub struct AttachmentGrant {
    /// Authorization identity.
    pub id: u64,
    /// Work generation that granted it.
    pub work_generation: u64,
    /// Attachment generation it may start.
    pub attachment_generation: u64,
    /// Why it attaches.
    pub cause: AttachmentCause,
    /// Verified caller, if a caller requested it.
    pub actor: Option<ActionContext>,
}

/// A started attachment attempt.
#[derive(Debug)]
pub struct AttachmentStart {
    /// Attachment generation.
    pub generation: u64,
    /// Why it attaches.
    pub cause: AttachmentCause,
    /// Verified caller, if a caller requested it.
    pub actor: Option<ActionContext>,
}

/// An abandoned authorization whose audit the runtime delivers.
#[derive(Clone, Copy, Debug, PartialEq, Eq, Structural)]
pub struct Abandonment {
    /// Attachment generation after the abandonment.
    pub generation: u64,
    /// Attachment generation the authorization could have started.
    pub audited_generation: u64,
    /// Whether a provider context was recorded before.
    pub recorded: bool,
    /// Why it would have attached.
    pub cause: AttachmentCause,
}

/// Whether `f` records `code` for `generation` and `cause` with `error` bounded.
pub open spec fn failure_from(
    f: AttachmentFailure,
    code: AttachmentFailureCode,
    generation: u64,
    cause: AttachmentCause,
    error: AgentError,
) -> bool {
    &&& f.spec_code() == code
    &&& f.spec_generation() == generation
    &&& f.spec_cause() == cause
    &&& bounded_as(error, f.spec_error())
}

/// Whether two failures agree, diagnostics by content.
pub open spec fn failure_like(a: AttachmentFailure, b: AttachmentFailure) -> bool {
    &&& a.spec_code() == b.spec_code()
    &&& a.spec_generation() == b.spec_generation()
    &&& a.spec_cause() == b.spec_cause()
    &&& err_eq(a.spec_error(), b.spec_error())
}

/// Whether a confirmed, audited cleanup of an open lifecycle can be released.
pub open spec fn settles_cleanup(v: LifecycleView) -> bool {
    v.status is Open && (v.cleanup matches Some(c) && (c.report matches Some(f) && succeeded(f)))
}

/// Whether a provider context was recorded, for a lifecycle that may authorize an
/// attempt; None when an attempt is already under way or a failure keeps resources.
pub open spec fn authorization_recorded(v: LifecycleView, needs_cleanup: bool) -> Option<bool> {
    match v.attachment {
        AttachmentStage::Absent { recorded } => Some(recorded),
        AttachmentStage::Failed { recorded, .. } => if needs_cleanup {
            None
        } else {
            Some(recorded)
        },
        _ => None,
    }
}

/// The cause and caller an authorization records, if the request may authorize.
pub open spec fn authorization_basis(
    recovery_ready: bool,
    request: AttachmentRequest,
    recorded: bool,
) -> Option<(AttachmentCause, Option<ActionContext>)> {
    match request {
        AttachmentRequest::CallerRequested(actor) => Some(
            (if recorded { AttachmentCause::Reopen } else { AttachmentCause::Initial }, Some(actor)),
        ),
        AttachmentRequest::AutomaticRecovery => if recorded && recovery_ready {
            Some((AttachmentCause::AutomaticRecovery, None))
        } else {
            None
        },
    }
}

/// Outcome of an authorization request.
pub open spec fn authorize_outcome(
    v: LifecycleView,
    request: AttachmentRequest,
    needs_cleanup: bool,
) -> Result<AttachmentGrant, AgentError> {
    if !(v.status is Open) || v.cleanup is Some {
        Err(AgentError::Closed)
    } else {
        match authorization_recorded(v, needs_cleanup) {
            None => Err(AgentError::AttachmentAuthorizationStale),
            Some(recorded) => match authorization_basis(v.recovery_ready, request, recorded) {
                None => Err(AgentError::AttachmentAuthorizationStale),
                Some((cause, actor)) => Ok(
                    AttachmentGrant {
                        id: v.next_authorization,
                        work_generation: v.work_generation,
                        attachment_generation: v.attachment_generation,
                        cause,
                        actor,
                    },
                ),
            },
        }
    }
}

/// The state after granting `g`: a fresh evidence set and one waiting authorization.
pub open spec fn authorized(v: LifecycleView, g: AttachmentGrant) -> LifecycleView {
    LifecycleView {
        next_authorization: (v.next_authorization + 1) as u64,
        evidence: Seq::empty(),
        attachment: AttachmentStage::Authorized {
            id: g.id,
            work_generation: g.work_generation,
            attachment_generation: g.attachment_generation,
            cause: g.cause,
            actor: g.actor,
        },
        ..v
    }
}

/// Whether `g` is the lifecycle's waiting authorization and may start.
pub open spec fn grant_current(v: LifecycleView, g: AttachmentGrant, owner_matches: bool) -> bool {
    &&& owner_matches
    &&& v.attachment matches AttachmentStage::Authorized { id, work_generation, attachment_generation, cause, actor }
        && id == g.id && work_generation == g.work_generation && attachment_generation == g.attachment_generation
        && cause == g.cause && same_actor(actor, g.actor)
    &&& v.work_generation == g.work_generation
    &&& v.attachment_generation == g.attachment_generation
    &&& v.status is Open
    &&& v.cleanup is None
}

/// The state after starting `g`: a new provider generation and one starting attempt.
pub open spec fn started(v: LifecycleView, g: AttachmentGrant) -> LifecycleView {
    LifecycleView {
        evidence: v.evidence.push(
            EvidenceSlot { generation: v.attachment_generation, transition: EvidenceTransition::Started },
        ),
        provider_generation: (v.provider_generation + 1) as u64,
        attachment: AttachmentStage::Starting {
            generation: v.attachment_generation,
            cause: g.cause,
            recorded: g.cause != AttachmentCause::Initial,
        },
        ..v
    }
}

/// Whether `g` is the waiting authorization, by identity and generations.
pub open spec fn abandons(v: LifecycleView, g: AttachmentGrant) -> bool {
    v.attachment matches AttachmentStage::Authorized { id, work_generation, attachment_generation, .. }
        && id == g.id && work_generation == g.work_generation && attachment_generation == g.attachment_generation
}

/// The state after abandoning `g`.
pub open spec fn abandoned(v: LifecycleView, g: AttachmentGrant) -> LifecycleView {
    LifecycleView {
        attachment_generation: (v.attachment_generation + 1) as u64,
        attachment: AttachmentStage::Abandoning {
            generation: (v.attachment_generation + 1) as u64,
            recorded: g.cause != AttachmentCause::Initial,
        },
        evidence: v.evidence.push(
            EvidenceSlot { generation: g.attachment_generation, transition: EvidenceTransition::AuthorizationAbandoned },
        ),
        ..v
    }
}

/// Whether `generation` is still the abandoning attempt.
pub open spec fn abandonment_current(v: LifecycleView, generation: u64) -> bool {
    v.attachment_generation == generation
        && (v.attachment matches AttachmentStage::Abandoning { generation: g, .. } && g == generation)
}

/// Whether `generation` is the starting attempt of an open lifecycle.
pub open spec fn publishes(v: LifecycleView, generation: u64) -> bool {
    v.attachment_generation == generation && v.status is Open
        && (v.attachment matches AttachmentStage::Starting { generation: g, .. } && g == generation)
}

/// Whether `generation` is the starting or published attempt.
pub open spec fn attempt_current(v: LifecycleView, generation: u64) -> bool {
    v.attachment_generation == generation && match v.attachment {
        AttachmentStage::Starting { generation: g, .. } => g == generation,
        AttachmentStage::Attached { generation: g, .. } => g == generation,
        _ => false,
    }
}

/// Cause and recorded flag a failed attempt keeps.
pub open spec fn failed_attempt(a: AttachmentStage, recorded_context: bool) -> (bool, AttachmentCause) {
    match a {
        AttachmentStage::Starting { recorded, cause, .. } => (recorded || recorded_context, cause),
        AttachmentStage::Attached { cause, .. } => (true, cause),
        _ => (false, AttachmentCause::Initial),
    }
}

impl LifecycleState {
    /// Releases the cleanup of an open lifecycle once its report confirmed release
    /// with delivered audit; true when the runtime must confirm that report.
    pub fn settle_confirmed_cleanup(&mut self) -> (r: bool)
        ensures
            r == settles_cleanup(old(self)@),
            final(self)@ == if r {
                LifecycleView { cleanup: None, ..old(self)@ }
            } else {
                old(self)@
            },
            lifecycle_wf(old(self)@) ==> lifecycle_wf(final(self)@),
    {
        let settles = matches!(self.status, WorkStatus::Open) && match self.cleanup {
            Some(c) => match c.report {
                Some(f) => f.confirmed && f.audit_ok,
                None => false,
            },
            None => false,
        };
        if settles {
            self.cleanup = None;
        }
        settles
    }

    /// Authorizes one attachment attempt. Closed while admission is closed or
    /// cleanup is pending; stale while an attempt is under way, a failure still
    /// needs cleanup, or automatic recovery is not ready for a recorded context.
    pub fn authorize_attachment(&mut self, request: AttachmentRequest, needs_cleanup: bool) -> (r: Result<
        AttachmentGrant,
        AgentError,
    >)
        requires
            headroom(old(self)@),
        ensures
            r == authorize_outcome(old(self)@, request, needs_cleanup),
            final(self)@ == match r {
                Ok(g) => authorized(old(self)@, g),
                Err(_) => old(self)@,
            },
            lifecycle_wf(old(self)@) ==> lifecycle_wf(final(self)@),
    {
        if !matches!(self.status, WorkStatus::Open) || self.cleanup.is_some() {
            return Err(AgentError::Closed);
        }
        let recorded = match &self.attachment {
            AttachmentStage::Absent { recorded } => *recorded,
            AttachmentStage::Failed { recorded, .. } => {
                if needs_cleanup {
                    return Err(AgentError::AttachmentAuthorizationStale);
                }
                *recorded
            },
            _ => return Err(AgentError::AttachmentAuthorizationStale),
        };
        let (cause, actor) = match request {
            AttachmentRequest::CallerRequested(actor) => (
                if recorded {
                    AttachmentCause::Reopen
                } else {
                    AttachmentCause::Initial
                },
                Some(actor),
            ),
            AttachmentRequest::AutomaticRecovery => {
                if recorded && self.recovery_ready {
                    (AttachmentCause::AutomaticRecovery, None)
                } else {
                    return Err(AgentError::AttachmentAuthorizationStale);
                }
            },
        };
        let id = self.next_authorization;
        self.next_authorization = self.next_authorization + 1;
        self.evidence = Vec::new();
        self.attachment = AttachmentStage::Authorized {
            id,
            work_generation: self.work_generation,
            attachment_generation: self.attachment_generation,
            cause,
            actor: copy_actor(&actor),
        };
        Ok(
            AttachmentGrant {
                id,
                work_generation: self.work_generation,
                attachment_generation: self.attachment_generation,
                cause,
                actor,
            },
        )
    }

    /// Starts the attempt `g` authorized, opening a new provider generation; stale
    /// unless `g` is the current authorization of this lifecycle (`owner_matches`),
    /// with unchanged generations, open admission and no pending cleanup.
    pub fn start_attachment(&mut self, g: &AttachmentGrant, owner_matches: bool) -> (r: Result<
        AttachmentStart,
        AgentError,
    >)
        requires
            headroom(old(self)@),
        ensures
            grant_current(old(self)@, *g, owner_matches) ==> r == Ok::<AttachmentStart, AgentError>(
                AttachmentStart { generation: old(self)@.attachment_generation, cause: g.cause, actor: g.actor },
            ) && final(self)@ == started(old(self)@, *g),
            !grant_current(old(self)@, *g, owner_matches) ==> r == Err::<AttachmentStart, AgentError>(
                AgentError::AttachmentAuthorizationStale,
            ) && final(self)@ == old(self)@,
            lifecycle_wf(old(self)@) ==> lifecycle_wf(final(self)@),
    {
        let current = owner_matches && match &self.attachment {
            AttachmentStage::Authorized { id, work_generation, attachment_generation, cause, actor } => {
                *id == g.id && *work_generation == g.work_generation && *attachment_generation
                    == g.attachment_generation && *cause == g.cause && same_actor_exec(actor, &g.actor)
            },
            _ => false,
        } && self.work_generation == g.work_generation && self.attachment_generation == g.attachment_generation
            && matches!(self.status, WorkStatus::Open) && self.cleanup.is_none();
        if !current {
            return Err(AgentError::AttachmentAuthorizationStale);
        }
        let generation = self.attachment_generation;
        self.evidence.push(EvidenceSlot { generation, transition: EvidenceTransition::Started });
        self.provider_generation = self.provider_generation + 1;
        self.attachment = AttachmentStage::Starting {
            generation,
            cause: g.cause,
            recorded: !matches!(g.cause, AttachmentCause::Initial),
        };
        Ok(AttachmentStart { generation, cause: g.cause, actor: copy_actor(&g.actor) })
    }

    /// Abandons the waiting authorization `g`, if it is still current; the runtime
    /// cancels it and delivers the returned abandonment's audit.
    pub fn abandon_attachment_authorization(&mut self, g: &AttachmentGrant) -> (r: Option<Abandonment>)
        requires
            headroom(old(self)@),
        ensures
            abandons(old(self)@, *g) ==> r == Some(
                Abandonment {
                    generation: (old(self)@.attachment_generation + 1) as u64,
                    audited_generation: g.attachment_generation,
                    recorded: g.cause != AttachmentCause::Initial,
                    cause: g.cause,
                },
            ) && final(self)@ == abandoned(old(self)@, *g),
            !abandons(old(self)@, *g) ==> r is None && final(self)@ == old(self)@,
            lifecycle_wf(old(self)@) ==> lifecycle_wf(final(self)@),
    {
        let matching = match &self.attachment {
            AttachmentStage::Authorized { id, work_generation, attachment_generation, .. } => {
                *id == g.id && *work_generation == g.work_generation && *attachment_generation
                    == g.attachment_generation
            },
            _ => false,
        };
        if !matching {
            return None;
        }
        let recorded = !matches!(g.cause, AttachmentCause::Initial);
        self.attachment_generation = self.attachment_generation + 1;
        let generation = self.attachment_generation;
        self.attachment = AttachmentStage::Abandoning { generation, recorded };
        self.evidence.push(
            EvidenceSlot { generation: g.attachment_generation, transition: EvidenceTransition::AuthorizationAbandoned },
        );
        Some(Abandonment { generation, audited_generation: g.attachment_generation, recorded, cause: g.cause })
    }

    /// Settles an abandonment once its audit was delivered or failed. A failure is
    /// retained as late evidence; while the abandonment is current it also fails
    /// the attachment, and a delivered audit returns it to absent.
    pub fn settle_abandonment(&mut self, a: Abandonment, outcome: Result<(), AgentError>)
        ensures
            abandonment_current(old(self)@, a.generation) ==> final(self)@.attachment == match outcome {
                Ok(()) => AttachmentStage::Absent { recorded: a.recorded },
                Err(_) => AttachmentStage::Failed {
                    failure: final(self)@.attachment->failure,
                    recorded: a.recorded,
                },
            },
            !abandonment_current(old(self)@, a.generation) ==> final(self)@.attachment == old(self)@.attachment,
            outcome matches Err(e) ==> (final(self)@.evidence_failure matches Some(f) && failure_from(
                f,
                AttachmentFailureCode::Audit,
                a.generation,
                a.cause,
                e,
            )),
            outcome matches Err(e) && abandonment_current(old(self)@, a.generation) ==> failure_like(
                final(self)@.evidence_failure->0,
                final(self)@.attachment->failure,
            ),
            outcome is Ok ==> final(self)@.evidence_failure == old(self)@.evidence_failure,
            final(self)@ == (LifecycleView {
                attachment: final(self)@.attachment,
                evidence_failure: final(self)@.evidence_failure,
                ..old(self)@
            }),
            lifecycle_wf(old(self)@) ==> lifecycle_wf(final(self)@),
    {
        let current = self.attachment_generation == a.generation && match &self.attachment {
            AttachmentStage::Abandoning { generation, .. } => *generation == a.generation,
            _ => false,
        };
        match outcome {
            Err(error) => {
                let failure = AttachmentFailure::new(AttachmentFailureCode::Audit, a.generation, a.cause, error);
                if current {
                    self.attachment = AttachmentStage::Failed { failure: failure.clone(), recorded: a.recorded };
                }
                self.evidence_failure = Some(failure);
            },
            Ok(()) => {
                if current {
                    self.attachment = AttachmentStage::Absent { recorded: a.recorded };
                }
            },
        }
    }

    /// Publishes the starting attempt `generation` as attached but not yet ready;
    /// false when it is no longer the current starting attempt.
    pub fn publish_attachment(&mut self, generation: u64) -> (r: bool)
        ensures
            r == publishes(old(self)@, generation),
            r ==> final(self)@ == (LifecycleView {
                provider_ready: false,
                recovery_ready: false,
                attachment: AttachmentStage::Attached {
                    generation,
                    cause: old(self)@.attachment->Starting_cause,
                },
                evidence: old(self)@.evidence.push(
                    EvidenceSlot { generation, transition: EvidenceTransition::ContextPublished },
                ),
                ..old(self)@
            }),
            !r ==> final(self)@ == old(self)@,
            lifecycle_wf(old(self)@) ==> lifecycle_wf(final(self)@),
    {
        let cause = match &self.attachment {
            AttachmentStage::Starting { generation: g, cause, .. } => {
                if *g != generation {
                    return false;
                }
                *cause
            },
            _ => return false,
        };
        if self.attachment_generation != generation || !matches!(self.status, WorkStatus::Open) {
            return false;
        }
        self.provider_ready = false;
        self.recovery_ready = false;
        self.attachment = AttachmentStage::Attached { generation, cause };
        self.evidence.push(EvidenceSlot { generation, transition: EvidenceTransition::ContextPublished });
        true
    }

    /// Marks the published attempt `generation` ready; false when it is no longer
    /// the current published attempt of an open lifecycle.
    pub fn acknowledge_attachment_publication(&mut self, generation: u64) -> (r: bool)
        ensures
            r == (old(self)@.attachment_generation == generation && old(self)@.status is Open
                && (old(self)@.attachment matches AttachmentStage::Attached { generation: g, .. } && g == generation)),
            final(self)@ == if r {
                LifecycleView { provider_ready: true, ..old(self)@ }
            } else {
                old(self)@
            },
            lifecycle_wf(old(self)@) ==> lifecycle_wf(final(self)@),
    {
        if !self.attachment_published(generation) {
            return false;
        }
        self.provider_ready = true;
        true
    }

    /// Fails the starting or published attempt `generation`; None when it is no
    /// longer current. Otherwise `Some(awaits)`, where `awaits` says whether the
    /// stop waits for the failure's audit (not for an audit failure itself).
    pub fn fail_attachment(
        &mut self,
        generation: u64,
        code: AttachmentFailureCode,
        error: AgentError,
        recorded_context: bool,
    ) -> (r: Option<bool>)
        ensures
            attempt_current(old(self)@, generation) ==> {
                let (recorded, cause) = failed_attempt(old(self)@.attachment, recorded_context);
                &&& r == Some(code != AttachmentFailureCode::Audit)
                &&& final(self)@.attachment matches AttachmentStage::Failed { failure, recorded: rec }
                    && rec == recorded && failure_from(failure, code, generation, cause, error)
                &&& final(self)@ == (LifecycleView {
                    provider_ready: false,
                    attachment: final(self)@.attachment,
                    evidence: if code == AttachmentFailureCode::Audit {
                        old(self)@.evidence
                    } else {
                        old(self)@.evidence.push(EvidenceSlot { generation, transition: EvidenceTransition::Failed })
                    },
                    ..old(self)@
                })
            },
            !attempt_current(old(self)@, generation) ==> r is None && final(self)@ == old(self)@,
            lifecycle_wf(old(self)@) ==> lifecycle_wf(final(self)@),
    {
        if self.attachment_generation != generation {
            return None;
        }
        let (recorded, cause) = match &self.attachment {
            AttachmentStage::Starting { generation: g, recorded, cause, .. } => {
                if *g != generation {
                    return None;
                }
                (*recorded || recorded_context, *cause)
            },
            AttachmentStage::Attached { generation: g, cause } => {
                if *g != generation {
                    return None;
                }
                (true, *cause)
            },
            _ => return None,
        };
        self.provider_ready = false;
        self.attachment = AttachmentStage::Failed {
            failure: AttachmentFailure::new(code, generation, cause, error),
            recorded,
        };
        let awaits = !matches!(code, AttachmentFailureCode::Audit);
        if awaits {
            self.evidence.push(EvidenceSlot { generation, transition: EvidenceTransition::Failed });
        }
        Some(awaits)
    }

    /// Retains a failure to deliver attachment audit of `generation`.
    pub fn retain_attachment_evidence_failure(&mut self, generation: u64, cause: AttachmentCause, error: AgentError)
        ensures
            final(self)@.evidence_failure matches Some(f) && failure_from(
                f,
                AttachmentFailureCode::Audit,
                generation,
                cause,
                error,
            ),
            final(self)@ == (LifecycleView { evidence_failure: final(self)@.evidence_failure, ..old(self)@ }),
            lifecycle_wf(old(self)@) ==> lifecycle_wf(final(self)@),
    {
        self.evidence_failure = Some(AttachmentFailure::new(AttachmentFailureCode::Audit, generation, cause, error));
    }
}


/// Identity and generations of one admitted owner.
#[derive(Clone, Copy, Debug, PartialEq, Eq, Structural)]
pub struct WorkAdmission {
    /// Permit identity.
    pub id: u64,
    /// Work generation that admitted it.
    pub work_generation: u64,
    /// Provider generation that admitted it.
    pub provider_generation: u64,
}

/// Why work was not admitted.
#[derive(Debug, PartialEq, Eq)]
pub enum WorkRefusal {
    /// Refused with this error.
    Refused(AgentError),
    /// The automatic stop's confirmed cleanup failed its audit; the runtime answers
    /// with that report's audit failure.
    CleanupAuditFailed,
}

/// Whether an automatic stop's confirmed cleanup failed its audit.
pub open spec fn cleanup_audit_failed(v: LifecycleView) -> bool {
    &&& v.cleanup matches Some(c) && (c.report matches Some(f) && f.confirmed && !f.audit_ok)
    &&& stop_of(v.status) matches Some(stop) && stop.recovery == RecoveryPolicy::Automatic
}

/// Outcome of admitting work of `phase`; `control` work needs a ready provider.
pub open spec fn accept_outcome(v: LifecycleView, phase: WorkPhase, control: bool) -> Result<WorkAdmission, WorkRefusal> {
    if phase == WorkPhase::Waiting && v.attachment is Failed {
        Err(WorkRefusal::Refused(AgentError::AttachmentUnavailable(phase_of(v))))
    } else if !(v.status is Open || (phase == WorkPhase::Waiting && accepts_waiting(v))) {
        if cleanup_audit_failed(v) {
            Err(WorkRefusal::CleanupAuditFailed)
        } else {
            Err(WorkRefusal::Refused(AgentError::Closed))
        }
    } else if (phase == WorkPhase::Active && !usable(v)) || (control && !v.provider_ready) {
        Err(WorkRefusal::Refused(AgentError::AttachmentUnavailable(phase_of(v))))
    } else {
        Ok(WorkAdmission { id: v.next_work, work_generation: v.work_generation, provider_generation: v.provider_generation })
    }
}

/// The state after admitting one owner of `phase`.
pub open spec fn admitted(v: LifecycleView, phase: WorkPhase) -> LifecycleView {
    LifecycleView {
        next_work: (v.next_work + 1) as u64,
        work: v.work.push(
            OwnedWork { id: v.next_work, work_generation: v.work_generation, phase, cancellation: None },
        ),
        ..v
    }
}

/// Whether an owner `id` is admitted.
pub open spec fn holds_work(v: LifecycleView, id: u64) -> bool {
    exists|i: int| 0 <= i < v.work.len() && v.work[i].id == id
}

/// Whether `f` is `w` with its phase and generation replaced where its id is `id`.
pub open spec fn rephased(
    old_work: Seq<OwnedWork>,
    new_work: Seq<OwnedWork>,
    id: u64,
    phase: WorkPhase,
    work_generation: u64,
) -> bool {
    &&& new_work.len() == old_work.len()
    &&& forall|i: int| 0 <= i < old_work.len() ==> #[trigger] new_work[i] == if old_work[i].id == id {
        OwnedWork { phase, work_generation, ..old_work[i] }
    } else {
        old_work[i]
    }
}

/// Whether a finalized stop may reopen admission: automatic or explicit recovery,
/// success, and every owner of an earlier work generation retired or waiting.
pub open spec fn reopens(v: LifecycleView) -> bool {
    match v.status {
        StatusView::Stopping(stop) => {
            &&& stop.finalized
            &&& stop.recovery == RecoveryPolicy::Automatic || stop.recovery == RecoveryPolicy::ExplicitClose
            &&& forall|i: int| 0 <= i < v.work.len() ==> #[trigger] v.work[i].phase == WorkPhase::Waiting
                || v.work[i].work_generation == v.work_generation
            &&& stop.ticket.result matches Some(f) && succeeded(f)
        },
        _ => false,
    }
}

/// The state after reopening admission, when it may reopen.
pub open spec fn after_reopen(v: LifecycleView) -> LifecycleView {
    if reopens(v) {
        LifecycleView {
            status: StatusView::Open,
            active: None,
            recovery_ready: stop_of(v.status)->0.recovery == RecoveryPolicy::Automatic,
            ..v
        }
    } else {
        v
    }
}

/// Whether the provider operation of an owner admitted under `work_generation` and
/// `provider_generation` lost its admission.
pub open spec fn admission_lost(v: LifecycleView, work_generation: u64, provider_generation: u64, preparation: bool) -> bool {
    v.work_generation != work_generation || v.provider_generation != provider_generation
        || (!preparation && !v.provider_ready) || !(v.status is Open)
}

impl LifecycleState {
    fn find(&self, id: u64) -> (r: Option<usize>)
        ensures
            r matches Some(i) ==> i < self@.work.len() && self@.work[i as int].id == id,
            r is None ==> !holds_work(self@, id),
    {
        let mut i: usize = 0;
        while i < self.work.len()
            invariant
                i <= self.work@.len(),
                forall|k: int| 0 <= k < i ==> self.work@[k].id != id,
            decreases self.work.len() - i,
        {
            if self.work[i].id == id {
                return Some(i);
            }
            i = i + 1;
        }
        None
    }

    /// Admits one owner of `phase`. Queued input is refused while the attachment
    /// failed; work is refused while admission is closed (a stop may still admit
    /// queued input), and active or `control` work needs a usable attachment.
    pub fn accept_work_kind(&mut self, phase: WorkPhase, control: bool) -> (r: Result<WorkAdmission, WorkRefusal>)
        requires
            headroom(old(self)@),
            lifecycle_wf(old(self)@),
        ensures
            r == accept_outcome(old(self)@, phase, control),
            final(self)@ == match r {
                Ok(_) => admitted(old(self)@, phase),
                Err(_) => old(self)@,
            },
            lifecycle_wf(final(self)@),
    {
        if matches!(phase, WorkPhase::Waiting) && matches!(self.attachment, AttachmentStage::Failed { .. }) {
            return Err(WorkRefusal::Refused(AgentError::AttachmentUnavailable(self.phase())));
        }
        let accepted = matches!(self.status, WorkStatus::Open) || (matches!(phase, WorkPhase::Waiting)
            && self.accepts_waiting());
        if !accepted {
            let automatic = match &self.status {
                WorkStatus::Stopping(stop) => matches!(stop.recovery, RecoveryPolicy::Automatic),
                WorkStatus::Blocked(stop) => matches!(stop.recovery, RecoveryPolicy::Automatic),
                WorkStatus::Open => false,
            };
            let audit_failed = match self.cleanup {
                Some(c) => match c.report {
                    Some(f) => f.confirmed && !f.audit_ok,
                    None => false,
                },
                None => false,
            };
            if automatic && audit_failed {
                return Err(WorkRefusal::CleanupAuditFailed);
            }
            return Err(WorkRefusal::Refused(AgentError::Closed));
        }
        if (matches!(phase, WorkPhase::Active) && !self.is_usable()) || (control && !self.provider_ready) {
            return Err(WorkRefusal::Refused(AgentError::AttachmentUnavailable(self.phase())));
        }
        let id = self.next_work;
        self.next_work = self.next_work + 1;
        self.work.push(OwnedWork { id, work_generation: self.work_generation, phase, cancellation: None });
        Ok(WorkAdmission { id, work_generation: self.work_generation, provider_generation: self.provider_generation })
    }

    /// Admits one owner of active work.
    pub fn accept_work(&mut self) -> (r: Result<WorkAdmission, WorkRefusal>)
        requires
            headroom(old(self)@),
            lifecycle_wf(old(self)@),
        ensures
            r == accept_outcome(old(self)@, WorkPhase::Active, false),
            final(self)@ == match r {
                Ok(_) => admitted(old(self)@, WorkPhase::Active),
                Err(_) => old(self)@,
            },
            lifecycle_wf(final(self)@),
    {
        self.accept_work_kind(WorkPhase::Active, false)
    }

    /// Admits one owner of queued input.
    pub fn accept_waiting_work(&mut self) -> (r: Result<WorkAdmission, WorkRefusal>)
        requires
            headroom(old(self)@),
            lifecycle_wf(old(self)@),
        ensures
            r == accept_outcome(old(self)@, WorkPhase::Waiting, false),
            final(self)@ == match r {
                Ok(_) => admitted(old(self)@, WorkPhase::Waiting),
                Err(_) => old(self)@,
            },
            lifecycle_wf(final(self)@),
    {
        self.accept_work_kind(WorkPhase::Waiting, false)
    }

    /// Admits one owner of a provider control, which needs a ready provider.
    pub fn accept_control(&mut self) -> (r: Result<WorkAdmission, WorkRefusal>)
        requires
            headroom(old(self)@),
            lifecycle_wf(old(self)@),
        ensures
            r == accept_outcome(old(self)@, WorkPhase::Active, true),
            final(self)@ == match r {
                Ok(_) => admitted(old(self)@, WorkPhase::Active),
                Err(_) => old(self)@,
            },
            lifecycle_wf(final(self)@),
    {
        self.accept_work_kind(WorkPhase::Active, true)
    }

    /// First stop that affected owner `id`.
    pub fn cancellation_of(&self, id: u64) -> (r: Option<InvocationCancellationEvent>)
        ensures
            holds_work(self@, id) ==> exists|i: int|
                0 <= i < self@.work.len() && self@.work[i].id == id && r == self@.work[i].cancellation,
            !holds_work(self@, id) ==> r is None,
    {
        match self.find(id) {
            Some(i) => match &self.work[i].cancellation {
                Some(c) => Some(c.clone()),
                None => None,
            },
            None => None,
        }
    }

    /// Claims automatic failure settlement of the queued owners `ids`: each owner a
    /// stop already affected answers with that stop; each other one starts settling.
    pub fn claim_waiting_failure(&mut self, ids: &[u64]) -> (r: Vec<Option<InvocationCancellationEvent>>)
        requires
            lifecycle_wf(old(self)@),
            forall|a: int, b: int| 0 <= a < b < ids@.len() ==> ids@[a] != ids@[b],
            forall|a: int| 0 <= a < ids@.len() ==> #[trigger] holds_work(old(self)@, ids@[a]),
            forall|i: int| 0 <= i < old(self)@.work.len() && ids@.contains(old(self)@.work[i].id)
                ==> old(self)@.work[i].cancellation is Some || old(self)@.work[i].phase == WorkPhase::Waiting,
        ensures
            r@.len() == ids@.len(),
            forall|a: int, i: int| 0 <= a < ids@.len() && 0 <= i < old(self)@.work.len()
                && old(self)@.work[i].id == ids@[a] ==> #[trigger] r@[a] == #[trigger] old(self)@.work[i].cancellation,
            final(self)@.work.len() == old(self)@.work.len(),
            forall|i: int| 0 <= i < old(self)@.work.len() ==> #[trigger] final(self)@.work[i] == if ids@.contains(
                old(self)@.work[i].id,
            ) && old(self)@.work[i].cancellation is None {
                OwnedWork { phase: WorkPhase::Settling, ..old(self)@.work[i] }
            } else {
                old(self)@.work[i]
            },
            final(self)@ == (LifecycleView { work: final(self)@.work, ..old(self)@ }),
            lifecycle_wf(final(self)@),
    {
        let ghost before = self@;
        let mut out: Vec<Option<InvocationCancellationEvent>> = Vec::new();
        let mut a: usize = 0;
        while a < ids.len()
            invariant
                a <= ids@.len(),
                out@.len() == a,
                lifecycle_wf(before),
                self@ == (LifecycleView { work: self@.work, ..before }),
                self@.work.len() == before.work.len(),
                forall|a: int, b: int| 0 <= a < b < ids@.len() ==> ids@[a] != ids@[b],
                forall|k: int| 0 <= k < ids@.len() ==> #[trigger] holds_work(before, ids@[k]),
                forall|i: int| 0 <= i < before.work.len() && ids@.contains(before.work[i].id)
                    ==> before.work[i].cancellation is Some || before.work[i].phase == WorkPhase::Waiting,
                forall|k: int, i: int| 0 <= k < a && 0 <= i < before.work.len() && before.work[i].id == ids@[k]
                    ==> #[trigger] out@[k] == #[trigger] before.work[i].cancellation,
                forall|i: int| 0 <= i < before.work.len() ==> #[trigger] self@.work[i] == if ids@.take(a as int).contains(
                    before.work[i].id,
                ) && before.work[i].cancellation is None {
                    OwnedWork { phase: WorkPhase::Settling, ..before.work[i] }
                } else {
                    before.work[i]
                },
            decreases ids@.len() - a,
        {
            let id = ids[a];
            assert(holds_work(before, ids@[a as int]));
            let i = match self.find(id) {
                Some(i) => i,
                None => {
                    proof {
                        let j = choose|j: int| 0 <= j < before.work.len() && before.work[j].id == id;
                        assert(self@.work[j].id == before.work[j].id);
                    }
                    return out;
                },
            };
            proof {
                assert(self@.work[i as int].id == before.work[i as int].id);
                assert(!ids@.take(a as int).contains(id)) by {
                    if ids@.take(a as int).contains(id) {
                        let k = choose|k: int| 0 <= k < a && ids@.take(a as int)[k] == id;
                        assert(ids@[k] == ids@[a as int]);
                    }
                }
                assert(ids@.contains(id)) by {
                    assert(ids@[a as int] == id);
                }
                assert(self@.work[i as int] == before.work[i as int]);
            }
            let claimed = match &self.work[i].cancellation {
                Some(c) => Some(c.clone()),
                None => None,
            };
            let ghost prev = self@.work;
            if claimed.is_none() {
                let w = OwnedWork {
                    id: self.work[i].id,
                    work_generation: self.work[i].work_generation,
                    phase: WorkPhase::Settling,
                    cancellation: None,
                };
                self.work.set(i, w);
            }
            out.push(claimed);
            proof {
                assert forall|j: int| 0 <= j < before.work.len() implies #[trigger] self@.work[j] == if ids@.take(
                    a + 1,
                ).contains(before.work[j].id) && before.work[j].cancellation is None {
                    OwnedWork { phase: WorkPhase::Settling, ..before.work[j] }
                } else {
                    before.work[j]
                } by {
                    let t = ids@.take(a as int);
                    let t1 = ids@.take(a + 1);
                    assert(t1 == t.push(id));
                    if j != i {
                        let x = before.work[j].id;
                        assert(x != id) by {
                            if j < i {
                                assert(before.work[j].id < before.work[i as int].id);
                            } else {
                                assert(before.work[i as int].id < before.work[j].id);
                            }
                        }
                        assert(t1.contains(x) == t.contains(x)) by {
                            if t1.contains(x) {
                                let k = choose|k: int| 0 <= k < t1.len() && t1[k] == x;
                                if k < a {
                                    assert(t[k] == x);
                                }
                            }
                            if t.contains(x) {
                                let k = choose|k: int| 0 <= k < t.len() && t[k] == x;
                                assert(t1[k] == x);
                            }
                        }
                        assert(self@.work[j] == prev[j]);
                    } else {
                        assert(t1.contains(id)) by {
                            assert(t1[a as int] == id);
                        }
                    }
                }
                assert forall|k: int, j: int| 0 <= k < a + 1 && 0 <= j < before.work.len() && before.work[j].id
                    == ids@[k] implies #[trigger] out@[k] == #[trigger] before.work[j].cancellation by {
                    if k == a {
                        if j != i {
                            if j < i {
                                assert(before.work[j].id < before.work[i as int].id);
                            } else {
                                assert(before.work[i as int].id < before.work[j].id);
                            }
                        }
                    }
                }
            }
            a = a + 1;
        }
        proof {
            assert(ids@.take(ids@.len() as int) == ids@);
            assert forall|i: int, j: int| 0 <= i < j < self@.work.len() implies self@.work[i].id < self@.work[j].id by {
                assert(self@.work[i].id == before.work[i].id);
                assert(self@.work[j].id == before.work[j].id);
            }
            assert forall|i: int| 0 <= i < self@.work.len() implies self@.work[i].id < self@.next_work by {
                assert(self@.work[i].id == before.work[i].id);
            }
        }
        out
    }

    /// Activates queued owner `id` under the current generations. Refused while the
    /// attachment is not usable or admission is closed; Closed when the owner is
    /// gone, not waiting, or already stopped.
    pub fn activate_waiting(&mut self, id: u64) -> (r: Result<(u64, u64), AgentError>)
        requires
            lifecycle_wf(old(self)@),
        ensures
            !(old(self)@.status is Open) || !usable(old(self)@) ==> r == Err::<(u64, u64), AgentError>(
                AgentError::AttachmentUnavailable(phase_of(old(self)@)),
            ),
            old(self)@.status is Open && usable(old(self)@) ==> match r {
                Ok((w, p)) => {
                    &&& w == old(self)@.work_generation && p == old(self)@.provider_generation
                    &&& exists|i: int| 0 <= i < old(self)@.work.len() && old(self)@.work[i].id == id
                        && old(self)@.work[i].phase == WorkPhase::Waiting && old(self)@.work[i].cancellation is None
                },
                Err(e) => e == AgentError::Closed && !exists|i: int| 0 <= i < old(self)@.work.len()
                    && old(self)@.work[i].id == id && old(self)@.work[i].phase == WorkPhase::Waiting
                    && old(self)@.work[i].cancellation is None,
            },
            r is Ok ==> rephased(old(self)@.work, final(self)@.work, id, WorkPhase::Active, old(self)@.work_generation),
            r is Err ==> final(self)@.work == old(self)@.work,
            final(self)@ == (LifecycleView { work: final(self)@.work, ..old(self)@ }),
            lifecycle_wf(final(self)@),
    {
        if !matches!(self.status, WorkStatus::Open) || !self.is_usable() {
            return Err(AgentError::AttachmentUnavailable(self.phase()));
        }
        let i = match self.find(id) {
            Some(i) => i,
            None => return Err(AgentError::Closed),
        };
        proof {
            assert forall|j: int| 0 <= j < self@.work.len() && self@.work[j].id == id implies j == i by {
                if j < i {
                    assert(self@.work[j].id < self@.work[i as int].id);
                } else if i < j {
                    assert(self@.work[i as int].id < self@.work[j].id);
                }
            }
        }
        if !matches!(self.work[i].phase, WorkPhase::Waiting) || self.work[i].cancellation.is_some() {
            return Err(AgentError::Closed);
        }
        let w = OwnedWork {
            id,
            work_generation: self.work_generation,
            phase: WorkPhase::Active,
            cancellation: None,
        };
        self.work.set(i, w);
        Ok((self.work_generation, self.provider_generation))
    }

    /// Returns active owner `id`, admitted under `work_generation` and
    /// `provider_generation`, to the queue; Closed when either generation changed,
    /// admission closed, or the owner is gone, not active, or already stopped.
    pub fn defer_active(&mut self, id: u64, work_generation: u64, provider_generation: u64) -> (r: Result<(), AgentError>)
        requires
            lifecycle_wf(old(self)@),
        ensures
            r is Ok <==> old(self)@.work_generation == work_generation && old(self)@.provider_generation
                == provider_generation && old(self)@.status is Open && exists|i: int|
                0 <= i < old(self)@.work.len() && old(self)@.work[i].id == id && old(self)@.work[i].phase
                    == WorkPhase::Active && old(self)@.work[i].cancellation is None,
            r matches Err(e) ==> e == AgentError::Closed,
            r is Ok ==> exists|i: int| 0 <= i < old(self)@.work.len() && old(self)@.work[i].id == id && rephased(
                old(self)@.work,
                final(self)@.work,
                id,
                WorkPhase::Waiting,
                old(self)@.work[i].work_generation,
            ),
            r is Err ==> final(self)@.work == old(self)@.work,
            final(self)@ == (LifecycleView { work: final(self)@.work, ..old(self)@ }),
            lifecycle_wf(final(self)@),
    {
        if self.work_generation != work_generation || self.provider_generation != provider_generation
            || !matches!(self.status, WorkStatus::Open) {
            return Err(AgentError::Closed);
        }
        let i = match self.find(id) {
            Some(i) => i,
            None => return Err(AgentError::Closed),
        };
        proof {
            assert forall|j: int| 0 <= j < self@.work.len() && self@.work[j].id == id implies j == i by {
                if j < i {
                    assert(self@.work[j].id < self@.work[i as int].id);
                } else if i < j {
                    assert(self@.work[i as int].id < self@.work[j].id);
                }
            }
        }
        if !matches!(self.work[i].phase, WorkPhase::Active) || self.work[i].cancellation.is_some() {
            return Err(AgentError::Closed);
        }
        let w = OwnedWork { id, work_generation: self.work[i].work_generation, phase: WorkPhase::Waiting, cancellation: None };
        self.work.set(i, w);
        Ok(())
    }

    /// Marks owner `id` as having entered its execution.
    pub fn mark_execution_started(&mut self, id: u64)
        requires
            lifecycle_wf(old(self)@),
            holds_work(old(self)@, id),
        ensures
            exists|i: int| 0 <= i < old(self)@.work.len() && old(self)@.work[i].id == id && rephased(
                old(self)@.work,
                final(self)@.work,
                id,
                WorkPhase::Executing,
                old(self)@.work[i].work_generation,
            ),
            final(self)@ == (LifecycleView { work: final(self)@.work, ..old(self)@ }),
            lifecycle_wf(final(self)@),
    {
        let i = match self.find(id) {
            Some(i) => i,
            None => return,
        };
        proof {
            assert forall|j: int| 0 <= j < self@.work.len() && self@.work[j].id == id implies j == i by {
                if j < i {
                    assert(self@.work[j].id < self@.work[i as int].id);
                } else if i < j {
                    assert(self@.work[i as int].id < self@.work[j].id);
                }
            }
        }
        let cancellation = match &self.work[i].cancellation {
            Some(c) => Some(c.clone()),
            None => None,
        };
        let w = OwnedWork { id, work_generation: self.work[i].work_generation, phase: WorkPhase::Executing, cancellation };
        self.work.set(i, w);
    }

    /// Whether owner `id` entered its execution.
    pub fn execution_started(&self, id: u64) -> (r: bool)
        requires
            holds_work(self@, id),
        ensures
            exists|i: int| 0 <= i < self@.work.len() && self@.work[i].id == id && r == (self@.work[i].phase
                == WorkPhase::Executing),
    {
        match self.find(id) {
            Some(i) => matches!(self.work[i].phase, WorkPhase::Executing),
            None => false,
        }
    }

    /// Checks that owner generations still hold a usable attachment: Closed when a
    /// generation changed, else unavailable in the current phase unless usable.
    pub fn check_attached(&self, work_generation: u64, provider_generation: u64) -> (r: Result<(), AgentError>)
        ensures
            r == if self@.work_generation != work_generation || self@.provider_generation != provider_generation {
                Err(AgentError::Closed)
            } else if usable(self@) {
                Ok(())
            } else {
                Err(AgentError::AttachmentUnavailable(phase_of(self@)))
            },
    {
        if self.work_generation != work_generation || self.provider_generation != provider_generation {
            return Err(AgentError::Closed);
        }
        if self.is_usable() {
            Ok(())
        } else {
            Err(AgentError::AttachmentUnavailable(self.phase()))
        }
    }

    /// Records `id` as the active execution of the current work generation;
    /// Closed while admission is closed.
    pub fn start_execution(&mut self, id: ExecutionId) -> (r: Result<u64, AgentError>)
        ensures
            old(self)@.status is Open ==> r == Ok::<u64, AgentError>(old(self)@.work_generation) && final(self)@ == (
            LifecycleView { active: Some((old(self)@.work_generation, id)), ..old(self)@ }),
            !(old(self)@.status is Open) ==> r == Err::<u64, AgentError>(AgentError::Closed) && final(self)@ == old(
                self,
            )@,
            lifecycle_wf(old(self)@) ==> lifecycle_wf(final(self)@),
    {
        if !matches!(self.status, WorkStatus::Open) {
            return Err(AgentError::Closed);
        }
        self.active = Some((self.work_generation, id));
        Ok(self.work_generation)
    }

    /// Clears the active execution when it belongs to `work_generation`.
    pub fn finish_execution(&mut self, work_generation: u64)
        ensures
            final(self)@ == if old(self)@.active matches Some((g, _)) && g == work_generation {
                LifecycleView { active: None, ..old(self)@ }
            } else {
                old(self)@
            },
            lifecycle_wf(old(self)@) ==> lifecycle_wf(final(self)@),
    {
        let clear = match &self.active {
            Some((g, _)) => *g == work_generation,
            None => false,
        };
        if clear {
            self.active = None;
        }
    }

    /// Whether a provider operation of an owner admitted under these generations
    /// lost its admission; a preparation does not need a ready provider.
    pub fn admission_lost(&self, work_generation: u64, provider_generation: u64, preparation: bool) -> (r: bool)
        ensures
            r == admission_lost(self@, work_generation, provider_generation, preparation),
    {
        self.work_generation != work_generation || self.provider_generation != provider_generation || (!preparation
            && !self.provider_ready) || !matches!(self.status, WorkStatus::Open)
    }

    /// Marks the provider ready after a successful preparation under these
    /// generations; Closed when either changed, admission closed or cleanup pends.
    pub fn confirm_preparation(&mut self, work_generation: u64, provider_generation: u64) -> (r: Result<(), AgentError>)
        ensures
            r is Ok <==> old(self)@.work_generation == work_generation && old(self)@.provider_generation
                == provider_generation && old(self)@.status is Open && old(self)@.cleanup is None,
            r matches Err(e) ==> e == AgentError::Closed,
            final(self)@ == if r is Ok {
                LifecycleView { provider_ready: true, ..old(self)@ }
            } else {
                old(self)@
            },
            lifecycle_wf(old(self)@) ==> lifecycle_wf(final(self)@),
    {
        if self.work_generation != work_generation || self.provider_generation != provider_generation
            || !matches!(self.status, WorkStatus::Open) || self.cleanup.is_some() {
            return Err(AgentError::Closed);
        }
        self.provider_ready = true;
        Ok(())
    }

    fn reopens(&self) -> (r: bool)
        ensures
            r == reopens(self@),
    {
        match &self.status {
            WorkStatus::Stopping(stop) => {
                if !stop.finalized || !(matches!(stop.recovery, RecoveryPolicy::Automatic) || matches!(
                    stop.recovery,
                    RecoveryPolicy::ExplicitClose,
                )) {
                    return false;
                }
                let succeeded = match stop.ticket.result {
                    Some(f) => f.confirmed && f.audit_ok,
                    None => false,
                };
                if !succeeded {
                    return false;
                }
                let mut i: usize = 0;
                while i < self.work.len()
                    invariant
                        i <= self.work@.len(),
                        forall|k: int| 0 <= k < i ==> #[trigger] self.work@[k].phase == WorkPhase::Waiting
                            || self.work@[k].work_generation == self.work_generation,
                    decreases self.work.len() - i,
                {
                    if !matches!(self.work[i].phase, WorkPhase::Waiting) && self.work[i].work_generation
                        != self.work_generation {
                        return false;
                    }
                    i = i + 1;
                }
                true
            },
            _ => false,
        }
    }

    /// Reopens admission once a finalized stop may; true when it reopened, and the
    /// runtime then clears its close notice.
    fn maybe_reopen(&mut self) -> (r: bool)
        ensures
            r == reopens(old(self)@),
            final(self)@ == after_reopen(old(self)@),
            lifecycle_wf(old(self)@) ==> lifecycle_wf(final(self)@),
    {
        if !self.reopens() {
            return false;
        }
        let automatic = match &self.status {
            WorkStatus::Stopping(stop) => matches!(stop.recovery, RecoveryPolicy::Automatic),
            _ => false,
        };
        self.status = WorkStatus::Open;
        self.active = None;
        self.recovery_ready = automatic;
        true
    }

    /// Retires owner `id` and reopens admission when a finalized stop now may;
    /// true when it reopened.
    pub fn release_work(&mut self, id: u64) -> (r: bool)
        requires
            lifecycle_wf(old(self)@),
        ensures
            ({
                let removed = LifecycleView {
                    work: old(self)@.work.filter(|w: OwnedWork| w.id != id),
                    ..old(self)@
                };
                &&& r == reopens(removed)
                &&& final(self)@ == after_reopen(removed)
            }),
            lifecycle_wf(final(self)@),
    {
        let ghost before = self@;
        match self.find(id) {
            Some(i) => {
                proof {
                    assert forall|j: int| 0 <= j < self@.work.len() && self@.work[j].id == id implies j == i by {
                        if j < i {
                            assert(self@.work[j].id < self@.work[i as int].id);
                        } else if i < j {
                            assert(self@.work[i as int].id < self@.work[j].id);
                        }
                    }
                }
                let _retired = self.work.remove(i);
                proof {
                    lemma_remove_is_filter(before.work, i as int, id);
                    assert forall|a: int, b: int| 0 <= a < b < self@.work.len() implies self@.work[a].id
                        < self@.work[b].id by {
                        let x = if a < i { a } else { a + 1 };
                        let y = if b < i { b } else { b + 1 };
                        assert(self@.work[a] == before.work[x]);
                        assert(self@.work[b] == before.work[y]);
                    }
                    assert forall|a: int| 0 <= a < self@.work.len() implies self@.work[a].id < self@.next_work by {
                        let x = if a < i { a } else { a + 1 };
                        assert(self@.work[a] == before.work[x]);
                    }
                }
            },
            None => {
                proof {
                    lemma_filter_absent(before.work, id);
                }
            },
        }
        proof {
            assert(self@ == (LifecycleView { work: before.work.filter(|w: OwnedWork| w.id != id), ..before }));
        }
        self.maybe_reopen()
    }
}


/// The stop an owner records when `r` stops its work.
pub open spec fn stop_event(r: SessionCloseRequest) -> InvocationCancellationEvent {
    match r {
        SessionCloseRequest::Explicit(a) => InvocationCancellationEvent { cause: SchedulingCause::SessionClosed, actor: Some(a) },
        _ => InvocationCancellationEvent { cause: SchedulingCause::RunnerStopped, actor: None },
    }
}

/// `w` after a stop `e` reached it: an owner keeps its first stop, a settling owner
/// is never stopped, and a waiting one only when `include_waiting`.
pub open spec fn notified(w: OwnedWork, e: InvocationCancellationEvent, include_waiting: bool) -> OwnedWork {
    if w.phase != WorkPhase::Settling && (include_waiting || w.phase != WorkPhase::Waiting) && w.cancellation is None {
        OwnedWork { cancellation: Some(e), ..w }
    } else {
        w
    }
}

/// The state after `r` stopped every owner it reaches.
pub open spec fn notify_all(v: LifecycleView, r: SessionCloseRequest, include_waiting: bool) -> LifecycleView {
    LifecycleView { work: v.work.map_values(|w: OwnedWork| notified(w, stop_event(r), include_waiting)), ..v }
}

/// The state after confirmed cleanup retired the provider generation: nothing is
/// active or ready, and a published attachment becomes absent with its context
/// recorded under a new attachment generation.
pub open spec fn retire_provider(v: LifecycleView) -> LifecycleView {
    let v1 = LifecycleView { active: None, provider_ready: false, ..v };
    if v.attachment is Attached {
        LifecycleView {
            attachment_generation: (v.attachment_generation + 1) as u64,
            attachment: AttachmentStage::Absent { recorded: true },
            ..v1
        }
    } else {
        v1
    }
}

/// The finalized stop whose recorded cleanup failed, which a confirmed report
/// replaces with a new attempt.
pub open spec fn replacement_of(v: LifecycleView) -> Option<StopView> {
    match stop_of(v.status) {
        Some(stop) => if stop.finalized && (v.cleanup matches Some(c) && (c.report matches Some(p) && !p.confirmed)) {
            Some(stop)
        } else {
            None
        },
        None => None,
    }
}

/// A closed status: stopping when audit was delivered, else blocked.
pub open spec fn closed_with(stop: StopView, audit_ok: bool) -> StatusView {
    if audit_ok {
        StatusView::Stopping(stop)
    } else {
        StatusView::Blocked(stop)
    }
}

/// Provider session state as the lifecycle reads it.
#[derive(Clone, Copy, Debug, PartialEq, Eq, Structural)]
pub enum ProviderStateFacts {
    /// Admission to the provider session stays.
    Usable,
    /// Stop admission and keep resources until cleanup is confirmed.
    CleanupRequired,
    /// Cleanup was attempted, with these facts.
    CleanupReported(ReportFacts),
}

/// What applying a provider state did, for the runtime's channels.
#[derive(Clone, Copy, Debug, PartialEq, Eq, Structural)]
pub enum ProviderStateEffect {
    /// Nothing changed.
    Unchanged,
    /// A finalized stop whose cleanup failed got a new attempt carrying the report.
    Replaced,
    /// The report was recorded as the current cleanup.
    Recorded {
        /// No cleanup was recorded before.
        created: bool,
        /// Its failed audit blocked open admission with a new stop.
        blocked: bool,
    },
    /// Admission was fenced by a new blocked stop before cleanup started.
    Fenced,
}

/// A new blocked stop of work generation `v.work_generation + 1` for a failed
/// execution, awaiting the current attachment evidence.
pub open spec fn failure_stop(v: LifecycleView, attempt_id: u64, recovery: RecoveryPolicy) -> StatusView {
    StatusView::Blocked(
        StopView {
            ticket: TicketView {
                id: (v.work_generation + 1) as u64,
                attempt_id,
                request: SessionCloseRequest::ExecutionFailed,
                result: None,
                evidence: v.evidence,
                folded: Seq::empty(),
            },
            finalized: false,
            recovery,
        },
    )
}

/// The state and effect of applying provider state `st`, observed by an owner of
/// `work_generation`. A confirmed report retires the provider generation and is
/// recorded (or replaces a failed final cleanup); any other failure fences open
/// admission of the owner's own work generation.
pub open spec fn provider_state_outcome(v: LifecycleView, work_generation: u64, st: ProviderStateFacts) -> (
    LifecycleView,
    ProviderStateEffect,
) {
    let confirmed = match st {
        ProviderStateFacts::CleanupReported(f) => f.confirmed,
        _ => false,
    };
    if confirmed {
        let f = st->CleanupReported_0;
        let v1 = retire_provider(v);
        let v2 = if v.attachment is Attached {
            LifecycleView { recovery_ready: f.audit_ok, ..v1 }
        } else {
            v1
        };
        match replacement_of(v) {
            Some(prior) => {
                let attempt = (prior.ticket.attempt_id + 1) as u64;
                let ticket = TicketView { attempt_id: attempt, result: None, ..prior.ticket };
                let v3 = LifecycleView {
                    cleanup: Some(
                        CleanupSlot {
                            serial: v.next_cleanup,
                            provider_generation: v.provider_generation,
                            attempt_id: attempt,
                            report: Some(f),
                        },
                    ),
                    next_cleanup: (v.next_cleanup + 1) as u64,
                    status: closed_with(StopView { ticket, finalized: false, recovery: prior.recovery }, f.audit_ok),
                    ..v2
                };
                (notify_all(v3, prior.ticket.request, !f.audit_ok), ProviderStateEffect::Replaced)
            },
            None => {
                let slot = match v.cleanup {
                    Some(c) => CleanupSlot { report: Some(f), ..c },
                    None => CleanupSlot {
                        serial: v.next_cleanup,
                        provider_generation: v.provider_generation,
                        attempt_id: 0,
                        report: Some(f),
                    },
                };
                let v3 = LifecycleView {
                    cleanup: Some(slot),
                    next_cleanup: if v.cleanup is None {
                        (v.next_cleanup + 1) as u64
                    } else {
                        v.next_cleanup
                    },
                    ..v2
                };
                let blocks = !f.audit_ok && v.status is Open;
                let v4 = if blocks {
                    LifecycleView {
                        work_generation: (v.work_generation + 1) as u64,
                        status: failure_stop(v, slot.attempt_id, RecoveryPolicy::Automatic),
                        ..v3
                    }
                } else {
                    v3
                };
                (
                    notify_all(v4, SessionCloseRequest::ExecutionFailed, !f.audit_ok),
                    ProviderStateEffect::Recorded { created: v.cleanup is None, blocked: blocks },
                )
            },
        }
    } else if st is Usable || v.work_generation != work_generation || !(v.status is Open) {
        (v, ProviderStateEffect::Unchanged)
    } else {
        let v1 = LifecycleView {
            work_generation: (v.work_generation + 1) as u64,
            status: failure_stop(v, 0, RecoveryPolicy::CleanupNotStarted),
            ..v
        };
        (notify_all(v1, SessionCloseRequest::ExecutionFailed, true), ProviderStateEffect::Fenced)
    }
}

/// `s` with its recovery policy replaced.
pub open spec fn with_recovery(s: StatusView, recovery: RecoveryPolicy) -> StatusView {
    match s {
        StatusView::Open => StatusView::Open,
        StatusView::Stopping(t) => StatusView::Stopping(StopView { recovery, ..t }),
        StatusView::Blocked(t) => StatusView::Blocked(StopView { recovery, ..t }),
    }
}

/// The state after a supervisor or storage failure of `work_generation`: the
/// provider state requires cleanup, and a stop that could recover automatically
/// now needs an explicit close.
pub open spec fn blocked_outcome(v: LifecycleView, work_generation: u64) -> (LifecycleView, ProviderStateEffect) {
    if v.work_generation != work_generation {
        (v, ProviderStateEffect::Unchanged)
    } else {
        let (v1, e) = provider_state_outcome(v, work_generation, ProviderStateFacts::CleanupRequired);
        match stop_of(v1.status) {
            Some(stop) => if stop.recovery == RecoveryPolicy::CleanupNotStarted || stop.recovery
                == RecoveryPolicy::Automatic {
                (LifecycleView { status: with_recovery(v1.status, RecoveryPolicy::NeedsExplicitClose), ..v1 }, e)
            } else {
                (v1, e)
            },
            None => (v1, e),
        }
    }
}

fn stop_event_of(request: &SessionCloseRequest) -> (r: InvocationCancellationEvent)
    ensures
        r == stop_event(*request),
{
    match request {
        SessionCloseRequest::Explicit(a) => InvocationCancellationEvent {
            cause: SchedulingCause::SessionClosed,
            actor: Some(a.clone()),
        },
        _ => InvocationCancellationEvent { cause: SchedulingCause::RunnerStopped, actor: None },
    }
}

impl LifecycleState {
    /// Saves `request` as the first stop of every owner it reaches, before any
    /// operation wakes: settling owners are skipped, waiting ones unless
    /// `include_waiting`, and an owner keeps an earlier stop.
    fn notify_stop(&mut self, request: &SessionCloseRequest, include_waiting: bool)
        ensures
            final(self)@ == notify_all(old(self)@, *request, include_waiting),
            lifecycle_wf(old(self)@) ==> lifecycle_wf(final(self)@),
    {
        let ghost before = self@;
        let event = stop_event_of(request);
        let mut i: usize = 0;
        while i < self.work.len()
            invariant
                i <= self.work@.len(),
                self.work@.len() == before.work.len(),
                event == stop_event(*request),
                self@ == (LifecycleView { work: self@.work, ..before }),
                forall|k: int| 0 <= k < i ==> #[trigger] self.work@[k] == notified(before.work[k], event, include_waiting),
                forall|k: int| i <= k < self.work@.len() ==> #[trigger] self.work@[k] == before.work[k],
            decreases self.work.len() - i,
        {
            let reach = !matches!(self.work[i].phase, WorkPhase::Settling) && (include_waiting || !matches!(
                self.work[i].phase,
                WorkPhase::Waiting,
            )) && self.work[i].cancellation.is_none();
            if reach {
                let w = OwnedWork {
                    id: self.work[i].id,
                    work_generation: self.work[i].work_generation,
                    phase: self.work[i].phase,
                    cancellation: Some(event.clone()),
                };
                self.work.set(i, w);
            }
            i = i + 1;
        }
        proof {
            assert(self@.work =~= before.work.map_values(|w: OwnedWork| notified(w, stop_event(*request), include_waiting)));
        }
    }

    fn retire_confirmed_provider_generation(&mut self) -> (r: bool)
        requires
            headroom(old(self)@),
        ensures
            r == old(self)@.attachment is Attached,
            final(self)@ == retire_provider(old(self)@),
    {
        self.active = None;
        self.provider_ready = false;
        if matches!(self.attachment, AttachmentStage::Attached { .. }) {
            self.attachment_generation = self.attachment_generation + 1;
            self.attachment = AttachmentStage::Absent { recorded: true };
            true
        } else {
            false
        }
    }

    /// Whether a provider state observed under `provider_generation` still applies.
    pub fn provider_state_applies(&self, provider_generation: u64) -> (r: bool)
        ensures
            r == (self@.provider_generation == provider_generation),
    {
        self.provider_generation == provider_generation
    }

    /// Whether a control's provider state applies: the control's provider
    /// generation is current, and so is its work generation unless cleanup was
    /// reported.
    pub fn control_state_applies(&self, work_generation: u64, provider_generation: u64, reported: bool) -> (r: bool)
        ensures
            r == (self@.provider_generation == provider_generation && (self@.work_generation == work_generation
                || reported)),
    {
        self.provider_generation == provider_generation && (self.work_generation == work_generation || reported)
    }

    /// Applies provider state `state`, observed by an owner of `work_generation`,
    /// whose report the runtime already reconciled with the attachment's evidence.
    pub fn apply_provider_state(&mut self, work_generation: u64, state: ProviderStateFacts) -> (r: ProviderStateEffect)
        requires
            headroom(old(self)@),
            lifecycle_wf(old(self)@),
        ensures
            final(self)@ == provider_state_outcome(old(self)@, work_generation, state).0,
            r == provider_state_outcome(old(self)@, work_generation, state).1,
            lifecycle_wf(final(self)@),
    {
        if let ProviderStateFacts::CleanupReported(f) = state {
            if f.confirmed {
                let replacement = match &self.status {
                    WorkStatus::Stopping(stop) => stop.finalized,
                    WorkStatus::Blocked(stop) => stop.finalized,
                    WorkStatus::Open => false,
                } && match self.cleanup {
                    Some(c) => match c.report {
                        Some(p) => !p.confirmed,
                        None => false,
                    },
                    None => false,
                };
                if self.retire_confirmed_provider_generation() {
                    self.recovery_ready = f.audit_ok;
                }
                if replacement {
                    let mut taken = WorkStatus::Open;
                    std::mem::swap(&mut taken, &mut self.status);
                    let stop = match taken {
                        WorkStatus::Stopping(s) => s,
                        WorkStatus::Blocked(s) => s,
                        WorkStatus::Open => return ProviderStateEffect::Unchanged,
                    };
                    let attempt_id = stop.ticket.attempt_id + 1;
                    self.cleanup = Some(
                        CleanupSlot {
                            serial: self.next_cleanup,
                            provider_generation: self.provider_generation,
                            attempt_id,
                            report: Some(f),
                        },
                    );
                    self.next_cleanup = self.next_cleanup + 1;
                    let request = stop.ticket.request.clone();
                    let ticket = StopTicket {
                        id: stop.ticket.id,
                        attempt_id,
                        request: stop.ticket.request,
                        result: None,
                        evidence: stop.ticket.evidence,
                        folded: stop.ticket.folded,
                    };
                    let replaced = Stop { ticket, finalized: false, recovery: stop.recovery };
                    self.status = if f.audit_ok {
                        WorkStatus::Stopping(replaced)
                    } else {
                        WorkStatus::Blocked(replaced)
                    };
                    self.notify_stop(&request, !f.audit_ok);
                    return ProviderStateEffect::Replaced;
                }
                let created = self.cleanup.is_none();
                let slot = match self.cleanup {
                    Some(c) => CleanupSlot { report: Some(f), ..c },
                    None => CleanupSlot {
                        serial: self.next_cleanup,
                        provider_generation: self.provider_generation,
                        attempt_id: 0,
                        report: Some(f),
                    },
                };
                if created {
                    self.next_cleanup = self.next_cleanup + 1;
                }
                self.cleanup = Some(slot);
                let blocks = !f.audit_ok && matches!(self.status, WorkStatus::Open);
                if blocks {
                    self.work_generation = self.work_generation + 1;
                    let ticket = StopTicket {
                        id: self.work_generation,
                        attempt_id: slot.attempt_id,
                        request: SessionCloseRequest::ExecutionFailed,
                        result: None,
                        evidence: copy_slots(&self.evidence),
                        folded: Vec::new(),
                    };
                    self.status = WorkStatus::Blocked(Stop { ticket, finalized: false, recovery: RecoveryPolicy::Automatic });
                }
                self.notify_stop(&SessionCloseRequest::ExecutionFailed, !f.audit_ok);
                return ProviderStateEffect::Recorded { created, blocked: blocks };
            }
        }
        if matches!(state, ProviderStateFacts::Usable) || self.work_generation != work_generation || !matches!(
            self.status,
            WorkStatus::Open,
        ) {
            return ProviderStateEffect::Unchanged;
        }
        self.work_generation = self.work_generation + 1;
        let ticket = StopTicket {
            id: self.work_generation,
            attempt_id: 0,
            request: SessionCloseRequest::ExecutionFailed,
            result: None,
            evidence: copy_slots(&self.evidence),
            folded: Vec::new(),
        };
        self.status = WorkStatus::Blocked(Stop { ticket, finalized: false, recovery: RecoveryPolicy::CleanupNotStarted });
        self.notify_stop(&SessionCloseRequest::ExecutionFailed, true);
        ProviderStateEffect::Fenced
    }

    /// Blocks work generation `work_generation` after a supervisor or storage
    /// failure: its provider state requires cleanup, and a stop that could have
    /// recovered automatically now needs an explicit close.
    pub fn block_work(&mut self, work_generation: u64) -> (r: ProviderStateEffect)
        requires
            headroom(old(self)@),
            lifecycle_wf(old(self)@),
        ensures
            final(self)@ == blocked_outcome(old(self)@, work_generation).0,
            r == blocked_outcome(old(self)@, work_generation).1,
            lifecycle_wf(final(self)@),
    {
        if self.work_generation != work_generation {
            return ProviderStateEffect::Unchanged;
        }
        let effect = self.apply_provider_state(work_generation, ProviderStateFacts::CleanupRequired);
        match &mut self.status {
            WorkStatus::Stopping(stop) => {
                if matches!(stop.recovery, RecoveryPolicy::CleanupNotStarted) || matches!(
                    stop.recovery,
                    RecoveryPolicy::Automatic,
                ) {
                    stop.recovery = RecoveryPolicy::NeedsExplicitClose;
                }
            },
            WorkStatus::Blocked(stop) => {
                if matches!(stop.recovery, RecoveryPolicy::CleanupNotStarted) || matches!(
                    stop.recovery,
                    RecoveryPolicy::Automatic,
                ) {
                    stop.recovery = RecoveryPolicy::NeedsExplicitClose;
                }
            },
            WorkStatus::Open => {},
        }
        effect
    }

    /// Records a failed provider state of an owner admitted under these
    /// generations; a usable state or a retired provider generation changes nothing.
    pub fn record_provider_state(
        &mut self,
        work_generation: u64,
        provider_generation: u64,
        state: ProviderStateFacts,
    ) -> (r: ProviderStateEffect)
        requires
            headroom(old(self)@),
            lifecycle_wf(old(self)@),
        ensures
            state is Usable || old(self)@.provider_generation != provider_generation ==> r
                == ProviderStateEffect::Unchanged && final(self)@ == old(self)@,
            !(state is Usable) && old(self)@.provider_generation == provider_generation ==> r
                == provider_state_outcome(old(self)@, work_generation, state).1 && final(self)@
                == provider_state_outcome(old(self)@, work_generation, state).0,
            lifecycle_wf(final(self)@),
    {
        if matches!(state, ProviderStateFacts::Usable) || self.provider_generation != provider_generation {
            return ProviderStateEffect::Unchanged;
        }
        self.apply_provider_state(work_generation, state)
    }

    /// Applies the provider state a control admitted under these generations
    /// received: only to the attachment that admitted it, and, unless cleanup was
    /// reported, only to its own work generation.
    pub fn apply_control_state(
        &mut self,
        work_generation: u64,
        provider_generation: u64,
        state: ProviderStateFacts,
    ) -> (r: ProviderStateEffect)
        requires
            headroom(old(self)@),
            lifecycle_wf(old(self)@),
        ensures
            ({
                let applies = old(self)@.provider_generation == provider_generation && (old(self)@.work_generation
                    == work_generation || state is CleanupReported);
                &&& applies ==> r == provider_state_outcome(old(self)@, work_generation, state).1 && final(self)@
                    == provider_state_outcome(old(self)@, work_generation, state).0
                &&& !applies ==> r == ProviderStateEffect::Unchanged && final(self)@ == old(self)@
            }),
            lifecycle_wf(final(self)@),
    {
        let reported = matches!(state, ProviderStateFacts::CleanupReported(_));
        if !self.control_state_applies(work_generation, provider_generation, reported) {
            return ProviderStateEffect::Unchanged;
        }
        self.apply_provider_state(work_generation, state)
    }

    /// Blocks the work generation of a failed supervisor control, when its
    /// provider generation is still current.
    pub fn block_control(&mut self, work_generation: u64, provider_generation: u64) -> (r: ProviderStateEffect)
        requires
            headroom(old(self)@),
            lifecycle_wf(old(self)@),
        ensures
            old(self)@.provider_generation == provider_generation ==> final(self)@ == blocked_outcome(
                old(self)@,
                work_generation,
            ).0 && r == blocked_outcome(old(self)@, work_generation).1,
            old(self)@.provider_generation != provider_generation ==> r == ProviderStateEffect::Unchanged
                && final(self)@ == old(self)@,
            lifecycle_wf(final(self)@),
    {
        if self.provider_generation != provider_generation {
            return ProviderStateEffect::Unchanged;
        }
        self.block_work(work_generation)
    }
}


/// An attachment attempt a stop closed, whose audit the runtime delivers.
#[derive(Clone, Copy, Debug, PartialEq, Eq, Structural)]
pub struct ClosingAudit {
    /// Closed attachment generation.
    pub generation: u64,
    /// Stage it was closed in.
    pub before: AttachmentAuditStage,
    /// Why it was attaching.
    pub cause: AttachmentCause,
}

/// A started or joined stop.
#[derive(Debug)]
pub struct StopStart {
    /// The stop's current attempt.
    pub ticket: StopTicket,
    /// It joined a cleanup that is still usable; otherwise the runtime starts
    /// cleanup for the ticket's request.
    pub shared: bool,
    /// Identity of the new cleanup, to which the runtime's cleanup task reports.
    pub cleanup: Option<u64>,
    /// An attempt it closed, whose audit the runtime delivers.
    pub closing: Option<ClosingAudit>,
    /// It closed a waiting authorization, which the runtime cancels.
    pub cancel_authorization: bool,
    /// It closed a starting attempt, whose opening task the runtime stops.
    pub opening_stop: bool,
}

/// Whether a stop that still admits queued input holds owners of the current work
/// generation, so that a new stop must not join it.
pub open spec fn fresh_queue_stop(v: LifecycleView) -> bool {
    accepts_waiting(v) && exists|i: int| 0 <= i < v.work.len() && v.work[i].work_generation == v.work_generation
}

/// The stop a new request joins.
pub open spec fn existing_stop(v: LifecycleView) -> Option<StopView> {
    if fresh_queue_stop(v) {
        None
    } else {
        stop_of(v.status)
    }
}

/// Who may reopen admission after request `r`: a later automatic request keeps the
/// stop's policy (cleanup it owns may now recover), an explicit close owns it.
pub open spec fn stop_recovery(v: LifecycleView, r: SessionCloseRequest) -> RecoveryPolicy {
    match stop_of(v.status) {
        Some(stop) => if !(r is Explicit) {
            if stop.recovery == RecoveryPolicy::CleanupNotStarted {
                RecoveryPolicy::Automatic
            } else {
                stop.recovery
            }
        } else {
            RecoveryPolicy::ExplicitClose
        },
        None => if r is Explicit {
            RecoveryPolicy::ExplicitClose
        } else {
            RecoveryPolicy::Automatic
        },
    }
}

/// The waiting or starting attempt a new stop closes.
pub open spec fn closing_attachment(v: LifecycleView) -> Option<ClosingAudit> {
    match v.attachment {
        AttachmentStage::Authorized { cause, .. } => Some(
            ClosingAudit { generation: v.attachment_generation, before: AttachmentAuditStage::Waiting, cause },
        ),
        AttachmentStage::Starting { generation, cause, .. } => Some(
            ClosingAudit { generation, before: AttachmentAuditStage::Starting, cause },
        ),
        _ => None,
    }
}

/// Whether a provider context is recorded in attachment state `a`.
pub open spec fn recorded_of(a: AttachmentStage) -> bool {
    match a {
        AttachmentStage::Absent { recorded } => recorded,
        AttachmentStage::Abandoning { recorded, .. } => recorded,
        AttachmentStage::Starting { recorded, .. } => recorded,
        AttachmentStage::Failed { recorded, .. } => recorded,
        AttachmentStage::Authorized { cause, .. } => cause != AttachmentCause::Initial,
        AttachmentStage::Attached { .. } => true,
    }
}

/// The state after a new stop detached the attachment: a new work and attachment
/// generation, a failure kept (else absent), and a closed attempt awaited.
pub open spec fn detached(v: LifecycleView) -> LifecycleView {
    LifecycleView {
        work_generation: (v.work_generation + 1) as u64,
        attachment_generation: (v.attachment_generation + 1) as u64,
        attachment: match v.attachment {
            AttachmentStage::Failed { failure, .. } => AttachmentStage::Failed { failure, recorded: recorded_of(v.attachment) },
            _ => AttachmentStage::Absent { recorded: recorded_of(v.attachment) },
        },
        evidence: match closing_attachment(v) {
            Some(c) => v.evidence.push(EvidenceSlot { generation: c.generation, transition: EvidenceTransition::Closed }),
            None => v.evidence,
        },
        ..v
    }
}

/// Whether the joined stop's cleanup is still usable: of this provider
/// generation, and unfinished or confirmed.
pub open spec fn shares_cleanup(v: LifecycleView) -> bool {
    existing_stop(v) is Some && (v.cleanup matches Some(c) && c.provider_generation == v.provider_generation
        && match c.report {
        Some(f) => f.confirmed,
        None => true,
    })
}

/// The state after request `r` started or joined a stop, and the stop's ticket.
pub open spec fn stop_outcome(v: LifecycleView, r: SessionCloseRequest) -> (LifecycleView, TicketView) {
    let existing = existing_stop(v);
    let recovery = stop_recovery(v, r);
    let v1 = if existing is None {
        detached(v)
    } else {
        v
    };
    let v2 = notify_all(v1, r, recovery != RecoveryPolicy::Automatic);
    let v3 = LifecycleView { provider_ready: false, ..v2 };
    if shares_cleanup(v) {
        (LifecycleView { status: with_recovery(v3.status, recovery), ..v3 }, existing->0.ticket)
    } else {
        let attempt_id = match v.cleanup {
            Some(c) => (c.attempt_id + 1) as u64,
            None => 0,
        };
        let ticket = TicketView {
            id: match existing {
                Some(t) => t.ticket.id,
                None => (v.work_generation + 1) as u64,
            },
            attempt_id,
            request: match existing {
                Some(t) => t.ticket.request,
                None => r,
            },
            result: None,
            evidence: match existing {
                Some(t) => t.ticket.evidence,
                None => v3.evidence,
            },
            folded: match stop_of(v.status) {
                Some(t) => t.ticket.folded,
                None => Seq::empty(),
            },
        };
        (
            LifecycleView {
                cleanup: Some(
                    CleanupSlot {
                        serial: v.next_cleanup,
                        provider_generation: v.provider_generation,
                        attempt_id,
                        report: None,
                    },
                ),
                next_cleanup: (v.next_cleanup + 1) as u64,
                status: StatusView::Stopping(StopView { ticket, finalized: false, recovery }),
                ..v3
            },
            ticket,
        )
    }
}

impl LifecycleState {
    fn current_owned(&self) -> (r: bool)
        ensures
            r == exists|i: int| 0 <= i < self@.work.len() && self@.work[i].work_generation == self@.work_generation,
    {
        let mut i: usize = 0;
        while i < self.work.len()
            invariant
                i <= self.work@.len(),
                forall|k: int| 0 <= k < i ==> self.work@[k].work_generation != self.work_generation,
            decreases self.work.len() - i,
        {
            if self.work[i].work_generation == self.work_generation {
                return true;
            }
            i = i + 1;
        }
        false
    }

    /// Starts a stop for `request`, or joins the current one: the first request of
    /// a stop stays its cause, every reached owner records its first stop, the
    /// provider loses readiness, and a new stop detaches the attachment. A stop
    /// whose cleanup is still usable is shared; otherwise a new cleanup attempt
    /// starts.
    pub fn start_stop(&mut self, request: SessionCloseRequest) -> (r: StopStart)
        requires
            headroom(old(self)@),
            lifecycle_wf(old(self)@),
        ensures
            final(self)@ == stop_outcome(old(self)@, request).0,
            r.ticket@ == stop_outcome(old(self)@, request).1,
            r.shared == shares_cleanup(old(self)@),
            r.cleanup == if r.shared {
                None
            } else {
                Some(old(self)@.next_cleanup)
            },
            r.closing == if existing_stop(old(self)@) is None {
                closing_attachment(old(self)@)
            } else {
                None
            },
            r.cancel_authorization == (existing_stop(old(self)@) is None && old(self)@.attachment is Authorized),
            r.opening_stop == (existing_stop(old(self)@) is None && old(self)@.attachment is Starting),
            lifecycle_wf(final(self)@),
    {
        let ghost v = self@;
        let fresh = self.accepts_waiting() && self.current_owned();
        let prior: Option<StopTicket> = match &self.status {
            WorkStatus::Stopping(stop) => Some(stop.ticket.duplicate()),
            WorkStatus::Blocked(stop) => Some(stop.ticket.duplicate()),
            WorkStatus::Open => None,
        };
        let joins = !fresh && prior.is_some();
        let explicit = matches!(request, SessionCloseRequest::Explicit(_));
        let recovery = match &self.status {
            WorkStatus::Stopping(stop) => if !explicit {
                if matches!(stop.recovery, RecoveryPolicy::CleanupNotStarted) {
                    RecoveryPolicy::Automatic
                } else {
                    stop.recovery
                }
            } else {
                RecoveryPolicy::ExplicitClose
            },
            WorkStatus::Blocked(stop) => if !explicit {
                if matches!(stop.recovery, RecoveryPolicy::CleanupNotStarted) {
                    RecoveryPolicy::Automatic
                } else {
                    stop.recovery
                }
            } else {
                RecoveryPolicy::ExplicitClose
            },
            WorkStatus::Open => if explicit {
                RecoveryPolicy::ExplicitClose
            } else {
                RecoveryPolicy::Automatic
            },
        };
        let mut closing: Option<ClosingAudit> = None;
        let mut cancel_authorization = false;
        let mut opening_stop = false;
        if !joins {
            closing = match &self.attachment {
                AttachmentStage::Authorized { cause, .. } => Some(
                    ClosingAudit {
                        generation: self.attachment_generation,
                        before: AttachmentAuditStage::Waiting,
                        cause: *cause,
                    },
                ),
                AttachmentStage::Starting { generation, cause, .. } => Some(
                    ClosingAudit { generation: *generation, before: AttachmentAuditStage::Starting, cause: *cause },
                ),
                _ => None,
            };
            cancel_authorization = matches!(self.attachment, AttachmentStage::Authorized { .. });
            opening_stop = matches!(self.attachment, AttachmentStage::Starting { .. });
            self.work_generation = self.work_generation + 1;
            let recorded = match &self.attachment {
                AttachmentStage::Absent { recorded } => *recorded,
                AttachmentStage::Abandoning { recorded, .. } => *recorded,
                AttachmentStage::Starting { recorded, .. } => *recorded,
                AttachmentStage::Failed { recorded, .. } => *recorded,
                AttachmentStage::Authorized { cause, .. } => !matches!(cause, AttachmentCause::Initial),
                AttachmentStage::Attached { .. } => true,
            };
            let mut taken = AttachmentStage::Absent { recorded };
            std::mem::swap(&mut taken, &mut self.attachment);
            if let AttachmentStage::Failed { failure, .. } = taken {
                self.attachment = AttachmentStage::Failed { failure, recorded };
            }
            self.attachment_generation = self.attachment_generation + 1;
            if let Some(c) = closing {
                self.evidence.push(EvidenceSlot { generation: c.generation, transition: EvidenceTransition::Closed });
            }
            proof {
                assert(self@ == detached(v));
            }
        }
        self.notify_stop(&request, !matches!(recovery, RecoveryPolicy::Automatic));
        self.provider_ready = false;
        let shared = joins && match self.cleanup {
            Some(c) => c.provider_generation == self.provider_generation && match c.report {
                Some(f) => f.confirmed,
                None => true,
            },
            None => false,
        };
        if shared {
            match &mut self.status {
                WorkStatus::Stopping(stop) => {
                    stop.recovery = recovery;
                },
                WorkStatus::Blocked(stop) => {
                    stop.recovery = recovery;
                },
                WorkStatus::Open => {},
            }
            let ticket = match prior {
                Some(t) => t,
                None => StopTicket {
                    id: 0,
                    attempt_id: 0,
                    request,
                    result: None,
                    evidence: Vec::new(),
                    folded: Vec::new(),
                },
            };
            return StopStart { ticket, shared: true, cleanup: None, closing, cancel_authorization, opening_stop };
        }
        let attempt_id = match self.cleanup {
            Some(c) => c.attempt_id + 1,
            None => 0,
        };
        let folded = match &prior {
            Some(t) => copy_slots(&t.folded),
            None => Vec::new(),
        };
        let ticket = if joins {
            match prior {
                Some(t) => StopTicket {
                    id: t.id,
                    attempt_id,
                    request: t.request,
                    result: None,
                    evidence: t.evidence,
                    folded,
                },
                None => StopTicket {
                    id: 0,
                    attempt_id,
                    request,
                    result: None,
                    evidence: Vec::new(),
                    folded,
                },
            }
        } else {
            StopTicket {
                id: self.work_generation,
                attempt_id,
                request,
                result: None,
                evidence: copy_slots(&self.evidence),
                folded,
            }
        };
        let serial = self.next_cleanup;
        self.cleanup = Some(
            CleanupSlot { serial, provider_generation: self.provider_generation, attempt_id, report: None },
        );
        self.next_cleanup = self.next_cleanup + 1;
        let handed = ticket.duplicate();
        self.status = WorkStatus::Stopping(Stop { ticket, finalized: false, recovery });
        StopStart { ticket: handed, shared: false, cleanup: Some(serial), closing, cancel_authorization, opening_stop }
    }

    /// Starts or joins a stop for `request` only while `work_generation` is current;
    /// evidence of an older invocation cannot stop a newer generation.
    pub fn start_stop_for(&mut self, work_generation: u64, request: SessionCloseRequest) -> (r: Option<StopStart>)
        requires
            headroom(old(self)@),
            lifecycle_wf(old(self)@),
        ensures
            old(self)@.work_generation != work_generation ==> r is None && final(self)@ == old(self)@,
            old(self)@.work_generation == work_generation ==> (r matches Some(s) && s.ticket@ == stop_outcome(
                old(self)@,
                request,
            ).1 && s.shared == shares_cleanup(old(self)@) && final(self)@ == stop_outcome(old(self)@, request).0),
            lifecycle_wf(final(self)@),
    {
        if self.work_generation != work_generation {
            return None;
        }
        Some(self.start_stop(request))
    }

    /// Starts cleanup after a failed control of `provider_generation`, even when its
    /// failure already stopped the work generation; None for a retired provider.
    pub fn start_control_cleanup(&mut self, provider_generation: u64) -> (r: Option<StopStart>)
        requires
            headroom(old(self)@),
            lifecycle_wf(old(self)@),
        ensures
            old(self)@.provider_generation != provider_generation ==> r is None && final(self)@ == old(self)@,
            old(self)@.provider_generation == provider_generation ==> (r matches Some(s) && s.ticket@
                == stop_outcome(old(self)@, SessionCloseRequest::ExecutionFailed).1 && s.shared == shares_cleanup(
                old(self)@,
            ) && final(self)@ == stop_outcome(old(self)@, SessionCloseRequest::ExecutionFailed).0),
            lifecycle_wf(final(self)@),
    {
        if self.provider_generation != provider_generation {
            return None;
        }
        Some(self.start_stop(SessionCloseRequest::ExecutionFailed))
    }
}


/// What finalizing a stop did.
#[derive(Clone, Copy, Debug, PartialEq, Eq, Structural)]
pub enum FinalizeOutcome {
    /// The ticket is no longer the current stop attempt.
    NotCurrent,
    /// The stop already published this result.
    AlreadyFinal(Option<ReportFacts>),
    /// Published `report`, which takes the current attempt's recorded cleanup in
    /// place of the given physical evidence when `recorded`; `reopened` when
    /// admission reopened.
    Finalized {
        /// Published result.
        report: ReportFacts,
        /// The recorded cleanup of this attempt was used.
        recorded: bool,
        /// Admission reopened.
        reopened: bool,
    },
}

/// `folded` with every fact of `evidence` it lacks appended, in order, once.
pub open spec fn fold_in(folded: Seq<EvidenceSlot>, evidence: Seq<EvidenceSlot>) -> Seq<EvidenceSlot>
    decreases evidence.len(),
{
    if evidence.len() == 0 {
        folded
    } else {
        let f = fold_in(folded, evidence.drop_last());
        if f.contains(evidence.last()) {
            f
        } else {
            f.push(evidence.last())
        }
    }
}

/// Whether `id` and `attempt_id` name the current stop attempt.
pub open spec fn finalize_current(v: LifecycleView, id: u64, attempt_id: u64) -> bool {
    stop_of(v.status) matches Some(s) && s.ticket.id == id && s.ticket.attempt_id == attempt_id
}

/// The newest physical evidence of attempt `attempt_id`: its recorded report when
/// there is one, else `given`; true when recorded.
pub open spec fn latest_report(v: LifecycleView, attempt_id: u64, given: ReportFacts) -> (ReportFacts, bool) {
    match v.cleanup {
        Some(c) => if c.attempt_id == attempt_id && c.report is Some {
            (c.report->0, true)
        } else {
            (given, false)
        },
        None => (given, false),
    }
}

/// The published result: the newest physical evidence, failing its audit when the
/// given evidence failed it.
pub open spec fn final_report(v: LifecycleView, attempt_id: u64, given: ReportFacts) -> ReportFacts {
    let latest = latest_report(v, attempt_id, given).0;
    ReportFacts { confirmed: latest.confirmed, audit_ok: latest.audit_ok && given.audit_ok }
}

/// The state after publishing the current stop's result: its awaited evidence is
/// joined, confirmed cleanup of this provider generation retires it, a failure
/// reaches every owner, and admission reopens when it may.
pub open spec fn finalized(v: LifecycleView, attempt_id: u64, given: ReportFacts) -> LifecycleView {
    let stop = stop_of(v.status)->0;
    let f = final_report(v, attempt_id, given);
    let ticket = TicketView { result: Some(f), folded: fold_in(stop.ticket.folded, stop.ticket.evidence), ..stop.ticket };
    let v1 = LifecycleView {
        status: closed_with(StopView { ticket, finalized: true, recovery: stop.recovery }, f.confirmed),
        ..v
    };
    let v2 = if f.confirmed && (v.cleanup matches Some(c) && c.provider_generation == v.provider_generation) {
        retire_provider(v1)
    } else {
        v1
    };
    let v3 = if !f.confirmed || !f.audit_ok {
        notify_all(v2, stop.ticket.request, true)
    } else {
        v2
    };
    after_reopen(v3)
}

/// Whether `s` holds `x`.
fn holds_slot(s: &Vec<EvidenceSlot>, x: EvidenceSlot) -> (r: bool)
    ensures
        r == s@.contains(x),
{
    let mut i: usize = 0;
    while i < s.len()
        invariant
            i <= s@.len(),
            forall|k: int| 0 <= k < i ==> s@[k] != x,
        decreases s.len() - i,
    {
        if s[i] == x {
            return true;
        }
        i = i + 1;
    }
    false
}

fn fold_evidence(folded: &Vec<EvidenceSlot>, evidence: &Vec<EvidenceSlot>) -> (r: Vec<EvidenceSlot>)
    ensures
        r@ == fold_in(folded@, evidence@),
{
    let mut out = copy_slots(folded);
    let mut i: usize = 0;
    while i < evidence.len()
        invariant
            i <= evidence@.len(),
            out@ == fold_in(folded@, evidence@.take(i as int)),
        decreases evidence.len() - i,
    {
        let x = evidence[i];
        proof {
            assert(evidence@.take(i + 1).drop_last() == evidence@.take(i as int));
            assert(evidence@.take(i + 1).last() == x);
        }
        if !holds_slot(&out, x) {
            out.push(x);
        }
        i = i + 1;
    }
    proof {
        assert(evidence@.take(evidence.len() as int) == evidence@);
    }
    out
}

/// The audit facts a stop attempt still awaits: its evidence not yet joined.
pub fn awaited_evidence(t: &StopTicket) -> (r: Vec<EvidenceSlot>)
    ensures
        r@ == t@.evidence.filter(|x: EvidenceSlot| !t@.folded.contains(x)),
{
    let mut out: Vec<EvidenceSlot> = Vec::new();
    let mut i: usize = 0;
    while i < t.evidence.len()
        invariant
            i <= t.evidence@.len(),
            out@ == t.evidence@.take(i as int).filter(|x: EvidenceSlot| !t.folded@.contains(x)),
        decreases t.evidence.len() - i,
    {
        let x = t.evidence[i];
        proof {
            reveal_with_fuel(Seq::filter, 1);
            assert(t.evidence@.take(i + 1).drop_last() == t.evidence@.take(i as int));
            assert(t.evidence@.take(i + 1).last() == x);
        }
        if !holds_slot(&t.folded, x) {
            out.push(x);
        }
        i = i + 1;
    }
    proof {
        assert(t.evidence@.take(t.evidence.len() as int) == t.evidence@);
    }
    out
}

impl LifecycleState {
    /// Records the physical result of cleanup `serial`, when it is still the
    /// current cleanup; true when recorded.
    pub fn record_cleanup(&mut self, serial: u64, report: ReportFacts) -> (r: bool)
        ensures
            r == (old(self)@.cleanup matches Some(c) && c.serial == serial),
            final(self)@ == if r {
                LifecycleView { cleanup: Some(CleanupSlot { report: Some(report), ..old(self)@.cleanup->0 }), ..old(self)@ }
            } else {
                old(self)@
            },
            lifecycle_wf(old(self)@) ==> lifecycle_wf(final(self)@),
    {
        match self.cleanup {
            Some(c) => {
                if c.serial == serial {
                    self.cleanup = Some(CleanupSlot { report: Some(report), ..c });
                    true
                } else {
                    false
                }
            },
            None => false,
        }
    }

    /// Publishes the result of stop attempt `id`/`attempt_id` from `given`, the
    /// physical evidence joined with the attachment audit the runtime awaited. A
    /// stale attempt changes nothing, and a published stop keeps its result.
    pub fn finalize_stop(&mut self, id: u64, attempt_id: u64, given: ReportFacts) -> (r: FinalizeOutcome)
        requires
            headroom(old(self)@),
            lifecycle_wf(old(self)@),
        ensures
            !finalize_current(old(self)@, id, attempt_id) ==> r == FinalizeOutcome::NotCurrent && final(self)@ == old(
                self,
            )@,
            finalize_current(old(self)@, id, attempt_id) && stop_of(old(self)@.status)->0.finalized ==> r
                == FinalizeOutcome::AlreadyFinal(stop_of(old(self)@.status)->0.ticket.result) && final(self)@ == old(
                self,
            )@,
            finalize_current(old(self)@, id, attempt_id) && !stop_of(old(self)@.status)->0.finalized ==> {
                let f = final_report(old(self)@, attempt_id, given);
                let recorded = latest_report(old(self)@, attempt_id, given).1;
                &&& final(self)@ == finalized(old(self)@, attempt_id, given)
                &&& r == FinalizeOutcome::Finalized {
                    report: f,
                    recorded,
                    reopened: final(self)@.status is Open,
                }
            },
            lifecycle_wf(final(self)@),
    {
        let ghost v = self@;
        let current = match &self.status {
            WorkStatus::Stopping(s) => s.ticket.id == id && s.ticket.attempt_id == attempt_id,
            WorkStatus::Blocked(s) => s.ticket.id == id && s.ticket.attempt_id == attempt_id,
            WorkStatus::Open => false,
        };
        if !current {
            return FinalizeOutcome::NotCurrent;
        }
        let already = match &self.status {
            WorkStatus::Stopping(s) => if s.finalized {
                Some(s.ticket.result)
            } else {
                None
            },
            WorkStatus::Blocked(s) => if s.finalized {
                Some(s.ticket.result)
            } else {
                None
            },
            WorkStatus::Open => None,
        };
        if let Some(result) = already {
            return FinalizeOutcome::AlreadyFinal(result);
        }
        let (latest, recorded) = match self.cleanup {
            Some(c) => if c.attempt_id == attempt_id {
                match c.report {
                    Some(f) => (f, true),
                    None => (given, false),
                }
            } else {
                (given, false)
            },
            None => (given, false),
        };
        let report = ReportFacts { confirmed: latest.confirmed, audit_ok: latest.audit_ok && given.audit_ok };
        let mut taken = WorkStatus::Open;
        std::mem::swap(&mut taken, &mut self.status);
        let stop = match taken {
            WorkStatus::Stopping(s) => s,
            WorkStatus::Blocked(s) => s,
            WorkStatus::Open => return FinalizeOutcome::NotCurrent,
        };
        let folded = fold_evidence(&stop.ticket.folded, &stop.ticket.evidence);
        let request = stop.ticket.request.clone();
        let ticket = StopTicket {
            id: stop.ticket.id,
            attempt_id: stop.ticket.attempt_id,
            request: stop.ticket.request,
            result: Some(report),
            evidence: stop.ticket.evidence,
            folded,
        };
        let updated = Stop { ticket, finalized: true, recovery: stop.recovery };
        self.status = if report.confirmed {
            WorkStatus::Stopping(updated)
        } else {
            WorkStatus::Blocked(updated)
        };
        let retires = report.confirmed && match self.cleanup {
            Some(c) => c.provider_generation == self.provider_generation,
            None => false,
        };
        if retires {
            self.retire_confirmed_provider_generation();
        }
        if !report.confirmed || !report.audit_ok {
            self.notify_stop(&request, true);
        }
        let reopened = self.maybe_reopen();
        FinalizeOutcome::Finalized { report, recorded, reopened }
    }
}


/// The failures of awaited audit facts, in order, joined as successive failures.
pub open spec fn joined_failures(outcomes: Seq<Result<(), AgentError>>) -> Option<AgentError>
    decreases outcomes.len(),
{
    if outcomes.len() == 0 {
        None
    } else {
        let prior = joined_failures(outcomes.drop_last());
        match outcomes.last() {
            Ok(()) => prior,
            Err(e) => Some(
                match prior {
                    Some(f) => AgentError::MultipleOperationFailures { first_error: Box::new(f), subsequent_error: Box::new(e) },
                    None => e,
                },
            ),
        }
    }
}

/// Joins the delivery outcomes of a stop's awaited audit facts: success when every
/// fact was delivered, else each failure in order after the earlier ones.
pub fn join_evidence(outcomes: Vec<Result<(), AgentError>>) -> (r: Result<(), AgentError>)
    ensures
        r == match joined_failures(outcomes@) {
            None => Ok::<(), AgentError>(()),
            Some(e) => Err(e),
        },
{
    let ghost all = outcomes@;
    let n = outcomes.len();
    let mut rest = outcomes;
    let mut failure: Option<AgentError> = None;
    let mut k: usize = 0;
    while rest.len() > 0
        invariant
            k + rest@.len() == all.len(),
            all.len() == n,
            rest@ == all.skip(k as int),
            failure == joined_failures(all.take(k as int)),
        decreases rest.len(),
    {
        let outcome = rest.remove(0);
        proof {
            assert(outcome == all[k as int]);
            assert(all.take(k + 1).drop_last() == all.take(k as int));
            assert(all.take(k + 1).last() == all[k as int]);
            assert(rest@ == all.skip(k + 1));
        }
        if let Err(e) = outcome {
            failure = Some(
                match failure {
                    Some(f) => AgentError::MultipleOperationFailures { first_error: Box::new(f), subsequent_error: Box::new(e) },
                    None => e,
                },
            );
        }
        k = k + 1;
    }
    proof {
        assert(all.take(all.len() as int) == all);
    }
    match failure {
        None => Ok(()),
        Some(e) => Err(e),
    }
}

proof fn lemma_filter_absent(s: Seq<OwnedWork>, id: u64)
    requires
        forall|i: int| 0 <= i < s.len() ==> s[i].id != id,
    ensures
        s.filter(|w: OwnedWork| w.id != id) == s,
    decreases s.len(),
{
    reveal_with_fuel(Seq::filter, 1);
    if s.len() > 0 {
        lemma_filter_absent(s.drop_last(), id);
        assert(s.drop_last().push(s.last()) == s);
    } else {
        assert(s.filter(|w: OwnedWork| w.id != id) =~= s);
    }
}

proof fn lemma_remove_is_filter(s: Seq<OwnedWork>, i: int, id: u64)
    requires
        0 <= i < s.len(),
        s[i].id == id,
        forall|j: int| 0 <= j < s.len() && s[j].id == id ==> j == i,
    ensures
        s.remove(i) == s.filter(|w: OwnedWork| w.id != id),
    decreases s.len(),
{
    reveal_with_fuel(Seq::filter, 1);
    if i == s.len() - 1 {
        lemma_filter_absent(s.drop_last(), id);
        assert(s.remove(i) =~= s.drop_last());
        assert(s.drop_last().push(s.last()) == s);
    } else {
        lemma_remove_is_filter(s.drop_last(), i, id);
        assert(s.drop_last().push(s.last()) == s);
        assert(s.remove(i) =~= s.drop_last().remove(i).push(s.last()));
    }
}

} // verus!
