//! Provider observations keep resource ownership separate from diagnostic failures.
use super::CloseOutcome;
use crate::agent_execution::agents::comparison::{err_eq, same_error};
use crate::agent_execution::agents::error_limits::bounded_as;
use crate::agent_execution::agents::AgentError;
use crate::agent_execution::permissions::PermissionSelectionState;
use crate::domain::executions::ExecutionOutcome;
use vstd::prelude::*;

verus! {

/// Observed physical cleanup. An error never implicitly establishes termination.
#[derive(Debug, PartialEq, Eq)]
pub enum ResourceCleanup {
    /// The adapter confirmed release of its owned resources.
    Confirmed(CloseOutcome),
    /// Resources remain owned; keep the provider session and retry cleanup.
    Unconfirmed(AgentError),
}

/// Whether `after` is `before` with a failure bounded.
pub open spec fn cleanup_bounded(before: ResourceCleanup, after: ResourceCleanup) -> bool {
    match before {
        ResourceCleanup::Confirmed(o) => after == ResourceCleanup::Confirmed(o),
        ResourceCleanup::Unconfirmed(e) => after matches ResourceCleanup::Unconfirmed(b) && bounded_as(e, b),
    }
}

/// Whether `after` is the result `before` with its failure bounded.
pub open spec fn unit_bounded(before: Result<(), AgentError>, after: Result<(), AgentError>) -> bool {
    match before {
        Ok(()) => after is Ok,
        Err(e) => after matches Err(b) && bounded_as(e, b),
    }
}

/// Whether `after` is the optional failure `before` bounded.
pub open spec fn option_bounded(before: Option<AgentError>, after: Option<AgentError>) -> bool {
    match before {
        None => after is None,
        Some(e) => after matches Some(b) && bounded_as(e, b),
    }
}

fn bound_resources(resources: ResourceCleanup) -> (r: ResourceCleanup)
    ensures
        cleanup_bounded(resources, r),
{
    match resources {
        ResourceCleanup::Confirmed(outcome) => ResourceCleanup::Confirmed(outcome),
        ResourceCleanup::Unconfirmed(error) => ResourceCleanup::Unconfirmed(error.bounded()),
    }
}

fn bound_audit(audit: Result<(), AgentError>) -> (r: Result<(), AgentError>)
    ensures
        unit_bounded(audit, r),
{
    match audit {
        Ok(()) => Ok(()),
        Err(e) => Err(e.bounded()),
    }
}

/// Physical cleanup and acknowledgement of required audit evidence, kept apart.
#[derive(Debug, PartialEq, Eq)]
pub struct CleanupReport {
    resources: ResourceCleanup,
    audit: Result<(), AgentError>,
    operation_failure: Option<AgentError>,
}

/// A cleanup failure paired with an earlier operation failure that differs from it.
pub open spec fn with_earlier(operation_failure: Option<AgentError>, cleanup: AgentError) -> AgentError {
    match operation_failure {
        Some(o) => if err_eq(o, cleanup) {
            cleanup
        } else {
            AgentError::OperationAndCleanupFailure { operation_error: Box::new(o), cleanup_error: Box::new(cleanup) }
        },
        None => cleanup,
    }
}

/// The result a cleanup report projects: confirmed cleanup with delivered audit
/// succeeds; otherwise the failed part (both, paired, when both failed), paired
/// with an earlier operation failure that differs from it.
pub open spec fn cleanup_projection(
    resources: ResourceCleanup,
    audit: Result<(), AgentError>,
    operation_failure: Option<AgentError>,
) -> Result<CloseOutcome, AgentError> {
    match (resources, audit) {
        (ResourceCleanup::Confirmed(o), Ok(())) => Ok(o),
        (ResourceCleanup::Confirmed(_), Err(a)) => Err(with_earlier(operation_failure, a)),
        (ResourceCleanup::Unconfirmed(c), Ok(())) => Err(with_earlier(operation_failure, c)),
        (ResourceCleanup::Unconfirmed(c), Err(a)) => Err(
            with_earlier(
                operation_failure,
                AgentError::OperationAndCleanupFailure { operation_error: Box::new(a), cleanup_error: Box::new(c) },
            ),
        ),
    }
}

/// Projections of reports whose parts agree by content agree by content.
proof fn lemma_projection_copy(
    r1: ResourceCleanup,
    a1: Result<(), AgentError>,
    o1: Option<AgentError>,
    r2: ResourceCleanup,
    a2: Result<(), AgentError>,
    o2: Option<AgentError>,
)
    requires
        match (r1, r2) {
            (ResourceCleanup::Confirmed(x), ResourceCleanup::Confirmed(y)) => x == y,
            (ResourceCleanup::Unconfirmed(x), ResourceCleanup::Unconfirmed(y)) => err_eq(x, y),
            _ => false,
        },
        match (a1, a2) {
            (Ok(()), Ok(())) => true,
            (Err(x), Err(y)) => err_eq(x, y),
            _ => false,
        },
        match (o1, o2) {
            (None, None) => true,
            (Some(x), Some(y)) => err_eq(x, y),
            _ => false,
        },
    ensures
        match (cleanup_projection(r1, a1, o1), cleanup_projection(r2, a2, o2)) {
            (Ok(x), Ok(y)) => x == y,
            (Err(x), Err(y)) => err_eq(x, y),
            _ => false,
        },
{
    reveal_with_fuel(crate::agent_execution::agents::comparison::content, 2);
}

impl CleanupReport {
    /// Physical cleanup.
    pub closed spec fn spec_resources(self) -> ResourceCleanup {
        self.resources
    }

    /// Audit acknowledgement.
    pub closed spec fn spec_audit(self) -> Result<(), AgentError> {
        self.audit
    }

    /// Earlier operation failure.
    pub closed spec fn spec_operation_failure(self) -> Option<AgentError> {
        self.operation_failure
    }

    /// Records `resources` and the independent `audit` acknowledgement, bounding
    /// their diagnostics without changing either status.
    pub fn new(resources: ResourceCleanup, audit: Result<(), AgentError>) -> (r: Self)
        ensures
            cleanup_bounded(resources, r.spec_resources()),
            unit_bounded(audit, r.spec_audit()),
            r.spec_operation_failure() is None,
    {
        CleanupReport { resources: bound_resources(resources), audit: bound_audit(audit), operation_failure: None }
    }

    /// Confirmed cleanup with delivered audit.
    pub fn confirmed(outcome: CloseOutcome) -> (r: Self)
        ensures
            r.spec_resources() == ResourceCleanup::Confirmed(outcome),
            r.spec_audit() is Ok,
            r.spec_operation_failure() is None,
    {
        Self::new(ResourceCleanup::Confirmed(outcome), Ok(()))
    }

    /// Failed cleanup that keeps resource ownership, with delivered audit.
    pub fn unconfirmed(error: AgentError) -> (r: Self)
        ensures
            cleanup_bounded(ResourceCleanup::Unconfirmed(error), r.spec_resources()),
            r.spec_audit() is Ok,
            r.spec_operation_failure() is None,
    {
        Self::new(ResourceCleanup::Unconfirmed(error), Ok(()))
    }

    /// Physical cleanup, independent of audit delivery.
    pub fn resources(&self) -> (r: &ResourceCleanup)
        ensures
            *r == self.spec_resources(),
    {
        &self.resources
    }

    /// Required audit acknowledgement.
    pub fn audit(&self) -> (r: &Result<(), AgentError>)
        ensures
            *r == self.spec_audit(),
    {
        &self.audit
    }

    /// Whether resource ownership can be released, audit failures aside.
    pub fn is_confirmed(&self) -> (r: bool)
        ensures
            r == (self.spec_resources() is Confirmed),
    {
        match &self.resources {
            ResourceCleanup::Confirmed(_) => true,
            ResourceCleanup::Unconfirmed(_) => false,
        }
    }

    /// Replaces physical evidence after a retry, keeping the audit result and the
    /// initiating operation failure as they were recorded, already bounded.
    pub fn with_resources(self, resources: ResourceCleanup) -> (r: Self)
        ensures
            cleanup_bounded(resources, r.spec_resources()),
            r.spec_audit() == self.spec_audit(),
            r.spec_operation_failure() == self.spec_operation_failure(),
    {
        CleanupReport { resources: bound_resources(resources), ..self }
    }

    /// Replaces the audit acknowledgement, keeping physical cleanup and the
    /// initiating operation failure as they were recorded.
    pub fn with_audit(self, audit: Result<(), AgentError>) -> (r: Self)
        ensures
            r.spec_resources() == self.spec_resources(),
            unit_bounded(audit, r.spec_audit()),
            r.spec_operation_failure() == self.spec_operation_failure(),
    {
        CleanupReport { audit: bound_audit(audit), ..self }
    }

    /// Joins a failure to deliver required attachment audit into this report's
    /// audit: it fails the audit, after any audit failure already reported.
    pub fn with_evidence_failure(self, error: AgentError) -> (r: Self)
        ensures
            unit_bounded(
                Err(
                    match self.spec_audit() {
                        Ok(()) => error,
                        Err(first) => AgentError::MultipleOperationFailures {
                            first_error: Box::new(first),
                            subsequent_error: Box::new(error),
                        },
                    },
                ),
                r.spec_audit(),
            ),
            r.spec_resources() == self.spec_resources(),
            r.spec_operation_failure() == self.spec_operation_failure(),
    {
        let CleanupReport { resources, audit, operation_failure } = self;
        let joined = match audit {
            Ok(()) => error,
            Err(first) => AgentError::MultipleOperationFailures {
                first_error: Box::new(first),
                subsequent_error: Box::new(error),
            },
        };
        CleanupReport { resources, audit: bound_audit(Err(joined)), operation_failure }
    }

    /// Keeps the initiating operation failure beside cleanup and audit.
    pub fn with_operation_failure(self, failure: Option<AgentError>) -> (r: Self)
        ensures
            r.spec_resources() == self.spec_resources(),
            r.spec_audit() == self.spec_audit(),
            option_bounded(failure, r.spec_operation_failure()),
    {
        let operation_failure = match failure {
            Some(e) => Some(e.bounded()),
            None => None,
        };
        CleanupReport { operation_failure, ..self }
    }

    /// Initiating operation failure, separate from this cleanup attempt.
    pub fn operation_failure(&self) -> (r: Option<&AgentError>)
        ensures
            r is Some <==> self.spec_operation_failure() is Some,
            r is Some ==> *r->0 == self.spec_operation_failure()->0,
    {
        match &self.operation_failure {
            Some(e) => Some(e),
            None => None,
        }
    }

    /// A copy of the failure this report projects; none for confirmed cleanup
    /// with delivered audit.
    pub fn failure(&self) -> (r: Option<AgentError>)
        ensures
            match cleanup_projection(self.spec_resources(), self.spec_audit(), self.spec_operation_failure()) {
                Ok(_) => r is None,
                Err(e) => r matches Some(x) && err_eq(e, x),
            },
    {
        let resources = match &self.resources {
            ResourceCleanup::Confirmed(o) => ResourceCleanup::Confirmed(*o),
            ResourceCleanup::Unconfirmed(e) => ResourceCleanup::Unconfirmed(e.clone()),
        };
        let audit = match &self.audit {
            Ok(()) => Ok(()),
            Err(e) => Err(e.clone()),
        };
        let operation_failure = match &self.operation_failure {
            Some(e) => Some(e.clone()),
            None => None,
        };
        let copy = CleanupReport { resources, audit, operation_failure };
        proof {
            lemma_projection_copy(
                self.resources,
                self.audit,
                self.operation_failure,
                copy.resources,
                copy.audit,
                copy.operation_failure,
            );
        }
        match copy.into_result() {
            Ok(_) => None,
            Err(e) => Some(e),
        }
    }

    /// The result of this cleanup attempt: `Ok` for confirmed resources and
    /// delivered audit, even beside an earlier operation failure; otherwise the
    /// failed part, paired with that earlier failure when it differs.
    pub fn into_result(self) -> (r: Result<CloseOutcome, AgentError>)
        ensures
            r == cleanup_projection(self.spec_resources(), self.spec_audit(), self.spec_operation_failure()),
    {
        let CleanupReport { resources, audit, operation_failure } = self;
        let cleanup = match (resources, audit) {
            (ResourceCleanup::Confirmed(outcome), Ok(())) => return Ok(outcome),
            (ResourceCleanup::Unconfirmed(cleanup_error), Err(operation_error)) => AgentError::OperationAndCleanupFailure {
                operation_error: Box::new(operation_error),
                cleanup_error: Box::new(cleanup_error),
            },
            (ResourceCleanup::Unconfirmed(error), Ok(())) => error,
            (ResourceCleanup::Confirmed(_), Err(error)) => error,
        };
        match operation_failure {
            Some(operation_error) => {
                if same_error(&operation_error, &cleanup) {
                    Err(cleanup)
                } else {
                    Err(
                        AgentError::OperationAndCleanupFailure {
                            operation_error: Box::new(operation_error),
                            cleanup_error: Box::new(cleanup),
                        },
                    )
                }
            },
            None => Err(cleanup),
        }
    }
}

/// Provider session status reported by an operation.
#[derive(Debug, PartialEq, Eq)]
pub enum ProviderSessionState {
    /// The operation did not revoke admission to this provider session.
    Usable,
    /// Stop admission and keep resources until cleanup is confirmed.
    CleanupRequired,
    /// Cleanup was attempted; the report says whether it succeeded.
    CleanupReported(CleanupReport),
}

/// A failed provider operation with its explicit provider session status.
#[derive(Debug, PartialEq, Eq)]
pub struct ProviderOperationFailure {
    error: AgentError,
    session_state: Box<ProviderSessionState>,
    permission_selection: Option<PermissionSelectionState>,
}

impl ProviderOperationFailure {
    /// Diagnostic cause.
    pub closed spec fn spec_error(self) -> AgentError {
        self.error
    }

    /// Provider session status.
    pub closed spec fn spec_session_state(self) -> ProviderSessionState {
        *self.session_state
    }

    /// Selection state of an answer failure.
    pub closed spec fn spec_permission_selection(self) -> Option<PermissionSelectionState> {
        self.permission_selection
    }

    /// Records `error`, bounded, and the observed provider session status.
    pub fn new(error: AgentError, session_state: ProviderSessionState) -> (r: Self)
        ensures
            bounded_as(error, r.spec_error()),
            r.spec_session_state() == session_state,
            r.spec_permission_selection() is None,
    {
        ProviderOperationFailure {
            error: error.bounded(),
            session_state: Box::new(session_state),
            permission_selection: None,
        }
    }

    /// Records a permission-answer failure with the independently observed
    /// selection state.
    pub fn permission_answer(
        error: AgentError,
        session_state: ProviderSessionState,
        selection: PermissionSelectionState,
    ) -> (r: Self)
        ensures
            bounded_as(error, r.spec_error()),
            r.spec_session_state() == session_state,
            r.spec_permission_selection() == Some(selection),
    {
        ProviderOperationFailure {
            error: error.bounded(),
            session_state: Box::new(session_state),
            permission_selection: Some(selection),
        }
    }

    /// Diagnostic cause, never a source of resource ownership decisions.
    pub fn error(&self) -> (r: &AgentError)
        ensures
            *r == self.spec_error(),
    {
        &self.error
    }

    /// Status of the provider session that admitted this operation.
    pub fn session_state(&self) -> (r: &ProviderSessionState)
        ensures
            *r == self.spec_session_state(),
    {
        &self.session_state
    }

    /// Known selection state when this failure belongs to an answer.
    pub fn permission_selection(&self) -> (r: Option<PermissionSelectionState>)
        ensures
            r == self.spec_permission_selection(),
    {
        self.permission_selection
    }

    /// The diagnostic and the session status, apart.
    pub fn into_parts(self) -> (r: (AgentError, ProviderSessionState))
        ensures
            r.0 == self.spec_error(),
            r.1 == self.spec_session_state(),
    {
        (self.error, *self.session_state)
    }

    /// The diagnostic alone.
    pub fn into_error(self) -> (r: AgentError)
        ensures
            r == self.spec_error(),
    {
        self.error
    }
}

/// Who established the invocation result.
#[derive(Clone, Copy, Debug, PartialEq, Eq, Structural)]
pub enum ExecutionReportSource {
    /// A provider response, or an attempt whose provider result is unknown.
    Provider,
    /// The application stopped the invocation locally.
    LocalCancellation,
}

/// Provider result and any separate delivery or audit failure.
#[derive(Debug, PartialEq, Eq)]
pub struct ExecutionReport {
    provider_result: Option<Result<ExecutionOutcome, AgentError>>,
    source: ExecutionReportSource,
    failure: Option<AgentError>,
    session_state: ProviderSessionState,
}

/// Whether `after` is the optional provider result `before` with its failure bounded.
pub open spec fn result_bounded(
    before: Option<Result<ExecutionOutcome, AgentError>>,
    after: Option<Result<ExecutionOutcome, AgentError>>,
) -> bool {
    match before {
        None => after is None,
        Some(Ok(o)) => after == Some(Ok::<ExecutionOutcome, AgentError>(o)),
        Some(Err(e)) => after matches Some(Err(b)) && bounded_as(e, b),
    }
}

/// The secondary failure an execution report projects: its own failure and a
/// failed cleanup's, the cleanup's alone when it already retells this failure, and
/// both paired when they differ.
pub open spec fn secondary_failure(failure: Option<AgentError>, state: ProviderSessionState) -> Option<AgentError> {
    let (cleanup_failure, cleanup_primary) = match state {
        ProviderSessionState::CleanupReported(report) => (
            match cleanup_projection(report.spec_resources(), report.spec_audit(), report.spec_operation_failure()) {
                Ok(_) => None,
                Err(e) => Some(e),
            },
            report.spec_operation_failure(),
        ),
        _ => (None, None),
    };
    match (failure, cleanup_failure) {
        (Some(op), Some(cl)) => if cleanup_primary matches Some(p) && err_eq(p, op) {
            Some(cl)
        } else if !err_eq(op, cl) {
            Some(AgentError::OperationAndCleanupFailure { operation_error: Box::new(op), cleanup_error: Box::new(cl) })
        } else {
            Some(op)
        },
        (Some(op), None) => Some(op),
        (None, second) => second,
    }
}

/// The consumer result an execution report projects: a known outcome stands alone
/// or beside a secondary failure; an unknown one with no failure is a local
/// cancellation or an unresolved submission.
pub open spec fn report_projection(
    provider_result: Option<Result<ExecutionOutcome, AgentError>>,
    source: ExecutionReportSource,
    failure: Option<AgentError>,
    state: ProviderSessionState,
) -> Result<ExecutionOutcome, AgentError> {
    match (provider_result, secondary_failure(failure, state)) {
        (Some(Err(primary)), Some(error)) => if err_eq(primary, error) {
            Err(primary)
        } else {
            Err(
                AgentError::ExecutionObservation {
                    error: Box::new(error),
                    execution_result: Some(Box::new(Err::<ExecutionOutcome, AgentError>(primary))),
                },
            )
        },
        (None, Some(error)) => Err(error),
        (Some(result), Some(error)) => Err(
            AgentError::ExecutionObservation { error: Box::new(error), execution_result: Some(Box::new(result)) },
        ),
        (Some(result), None) => result,
        (None, None) => if source == ExecutionReportSource::LocalCancellation {
            Ok(ExecutionOutcome::Cancelled)
        } else {
            Err(AgentError::SubmissionUnresolved)
        },
    }
}

impl ExecutionReport {
    /// Provider result, `None` when unknown.
    pub closed spec fn spec_provider_result(self) -> Option<Result<ExecutionOutcome, AgentError>> {
        self.provider_result
    }

    /// Source of the result.
    pub closed spec fn spec_source(self) -> ExecutionReportSource {
        self.source
    }

    /// Independent failure.
    pub closed spec fn spec_failure(self) -> Option<AgentError> {
        self.failure
    }

    /// Provider session status.
    pub closed spec fn spec_session_state(self) -> ProviderSessionState {
        self.session_state
    }

    /// Keeps the actual provider result (`None` when unknown), an independent
    /// failure and the provider session status; failures are bounded.
    pub fn new(
        provider_result: Option<Result<ExecutionOutcome, AgentError>>,
        failure: Option<AgentError>,
        session_state: ProviderSessionState,
    ) -> (r: Self)
        ensures
            result_bounded(provider_result, r.spec_provider_result()),
            option_bounded(failure, r.spec_failure()),
            r.spec_session_state() == session_state,
            r.spec_source() == ExecutionReportSource::Provider,
    {
        let provider_result = match provider_result {
            None => None,
            Some(Ok(o)) => Some(Ok(o)),
            Some(Err(e)) => Some(Err(e.bounded())),
        };
        let failure = match failure {
            Some(e) => Some(e.bounded()),
            None => None,
        };
        ExecutionReport { source: ExecutionReportSource::Provider, provider_result, failure, session_state }
    }

    /// Local cancellation with its separate cleanup evidence and no provider reply.
    pub fn cancelled_locally(report: CleanupReport) -> (r: Self)
        ensures
            r.spec_provider_result() is None,
            r.spec_failure() is None,
            r.spec_session_state() == ProviderSessionState::CleanupReported(report),
            r.spec_source() == ExecutionReportSource::LocalCancellation,
    {
        ExecutionReport {
            provider_result: None,
            failure: None,
            session_state: ProviderSessionState::CleanupReported(report),
            source: ExecutionReportSource::LocalCancellation,
        }
    }

    /// Whether local cancellation settled the invocation.
    pub fn source(&self) -> (r: ExecutionReportSource)
        ensures
            r == self.spec_source(),
    {
        self.source
    }

    /// Result observed from the provider, `None` when unknown.
    pub fn provider_result(&self) -> (r: Option<&Result<ExecutionOutcome, AgentError>>)
        ensures
            r is Some <==> self.spec_provider_result() is Some,
            r is Some ==> *r->0 == self.spec_provider_result()->0,
    {
        match &self.provider_result {
            Some(x) => Some(x),
            None => None,
        }
    }

    /// Independent observation, delivery or audit failure.
    pub fn failure(&self) -> (r: Option<&AgentError>)
        ensures
            r is Some <==> self.spec_failure() is Some,
            r is Some ==> *r->0 == self.spec_failure()->0,
    {
        match &self.failure {
            Some(x) => Some(x),
            None => None,
        }
    }

    /// Provider session status when settlement was published.
    pub fn session_state(&self) -> (r: &ProviderSessionState)
        ensures
            *r == self.spec_session_state(),
    {
        &self.session_state
    }

    /// Consumer projection keeping a known outcome beside any secondary failure.
    pub fn into_result(self) -> (r: Result<ExecutionOutcome, AgentError>)
        ensures
            r == report_projection(
                self.spec_provider_result(),
                self.spec_source(),
                self.spec_failure(),
                self.spec_session_state(),
            ),
    {
        let ExecutionReport { provider_result, source, failure, session_state } = self;
        let (cleanup_failure, repeats) = match session_state {
            ProviderSessionState::CleanupReported(report) => {
                let repeats = match (&report.operation_failure, &failure) {
                    (Some(p), Some(op)) => same_error(p, op),
                    _ => false,
                };
                (
                    match report.into_result() {
                        Ok(_) => None,
                        Err(e) => Some(e),
                    },
                    repeats,
                )
            },
            _ => (None, false),
        };
        let failure = match (failure, cleanup_failure) {
            (Some(operation_error), Some(cleanup_error)) => {
                if repeats {
                    Some(cleanup_error)
                } else if !same_error(&operation_error, &cleanup_error) {
                    Some(
                        AgentError::OperationAndCleanupFailure {
                            operation_error: Box::new(operation_error),
                            cleanup_error: Box::new(cleanup_error),
                        },
                    )
                } else {
                    Some(operation_error)
                }
            },
            (Some(operation_error), None) => Some(operation_error),
            (None, second) => second,
        };
        match (provider_result, failure) {
            (Some(Err(primary)), Some(error)) => {
                if same_error(&primary, &error) {
                    Err(primary)
                } else {
                    Err(
                        AgentError::ExecutionObservation {
                            error: Box::new(error),
                            execution_result: Some(Box::new(Err(primary))),
                        },
                    )
                }
            },
            (None, Some(error)) => Err(error),
            (Some(result), Some(error)) => Err(
                AgentError::ExecutionObservation { error: Box::new(error), execution_result: Some(Box::new(result)) },
            ),
            (Some(result), None) => result,
            (None, None) => match source {
                ExecutionReportSource::LocalCancellation => Ok(ExecutionOutcome::Cancelled),
                ExecutionReportSource::Provider => Err(AgentError::SubmissionUnresolved),
            },
        }
    }
}

/// Whether execution was rejected before dispatch or settled afterwards.
#[derive(Debug, PartialEq, Eq)]
pub enum ProviderExecutionReply {
    /// No input was dispatched.
    Rejected(AgentError),
    /// The adapter owned dispatch; settlement and resource status are explicit.
    Finished(ExecutionReport),
}

impl ProviderExecutionReply {
    /// Consumer projection: the rejection, or the settled report's projection.
    pub fn into_result(self) -> (r: Result<ExecutionOutcome, AgentError>)
        ensures
            r == match self {
                ProviderExecutionReply::Rejected(e) => Err(e),
                ProviderExecutionReply::Finished(s) => report_projection(
                    s.spec_provider_result(),
                    s.spec_source(),
                    s.spec_failure(),
                    s.spec_session_state(),
                ),
            },
    {
        match self {
            ProviderExecutionReply::Rejected(error) => Err(error),
            ProviderExecutionReply::Finished(settlement) => settlement.into_result(),
        }
    }
}

/// Cause observed at the failing reader boundary.
#[derive(Clone, Copy, Debug, PartialEq, Eq, Structural)]
pub enum ObservationFailureCause {
    /// The source observed expiry of its deadline.
    DeadlineExceeded,
    /// The source failed for another reason.
    ExecutionFailed,
}

/// A failed observation source; it does not confirm resource cleanup.
#[derive(Debug, PartialEq, Eq)]
pub struct ObservationFailure {
    error: AgentError,
    cause: ObservationFailureCause,
}

impl ObservationFailure {
    /// Bounded diagnostic.
    pub closed spec fn spec_error(self) -> AgentError {
        self.error
    }

    /// Cause.
    pub closed spec fn spec_cause(self) -> ObservationFailureCause {
        self.cause
    }

    /// Keeps `cause` and bounds the diagnostic independently.
    pub fn new(error: AgentError, cause: ObservationFailureCause) -> (r: Self)
        ensures
            bounded_as(error, r.spec_error()),
            r.spec_cause() == cause,
    {
        ObservationFailure { error: error.bounded(), cause }
    }

    /// Bounded diagnostic detail; never used to infer the cause.
    pub fn error(&self) -> (r: &AgentError)
        ensures
            *r == self.spec_error(),
    {
        &self.error
    }

    /// Cause supplied by the failing source.
    pub fn cause(&self) -> (r: ObservationFailureCause)
        ensures
            r == self.spec_cause(),
    {
        self.cause
    }

    /// The diagnostic alone.
    pub fn into_error(self) -> (r: AgentError)
        ensures
            r == self.spec_error(),
    {
        self.error
    }
}

} // verus!
