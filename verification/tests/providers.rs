use nessa_sdk::agent_execution::agents::attachment::{
    AttachmentFailure, AttachmentFailureCode, AttachmentPhase, AttachmentStatus,
};
use nessa_sdk::agent_execution::agents::AgentError;
use nessa_sdk::agent_execution::permissions::{ActionContext, CancellationOrigin};
use nessa_sdk::agent_execution::providers::finalized_execution::{
    FinalizedExecutionProjection, FinalizedFailureComponent,
};
use nessa_sdk::agent_execution::providers::operations::{
    ElicitationForwardingCapability, OperationCapabilities, PermissionDenialCapability,
    PreToolPolicyCapability, ProviderOperationCapabilities,
};
use nessa_sdk::agent_execution::providers::{
    CleanupReport, CloseOutcome, ExecutionReport, ExecutionReportSource, ObservationFailure,
    ObservationFailureCause, ProviderExecutionReply, ProviderIdentity, ProviderOperationFailure,
    ProviderSessionState, ResourceCleanup, SessionCloseRequest,
};
use nessa_sdk::domain::attachment::AttachmentCause;
use nessa_sdk::domain::executions::ExecutionOutcome;
use nessa_sdk::domain::permissions::PermissionCancellationReason;

fn closed() -> CloseOutcome {
    CloseOutcome { forced: false }
}

#[test]
fn confirmed_and_audited_cleanup_succeeds_even_after_an_operation_failure() {
    let report = CleanupReport::confirmed(closed())
        .with_operation_failure(Some(AgentError::Transport("lost".into())));
    assert!(report.is_confirmed());
    assert_eq!(report.into_result(), Ok(closed()));
}

#[test]
fn failed_cleanup_pairs_with_a_different_earlier_failure() {
    let report = CleanupReport::unconfirmed(AgentError::CleanupUncertain)
        .with_operation_failure(Some(AgentError::Deadline));
    assert_eq!(
        report.into_result(),
        Err(AgentError::OperationAndCleanupFailure {
            operation_error: Box::new(AgentError::Deadline),
            cleanup_error: Box::new(AgentError::CleanupUncertain),
        })
    );
    let report = CleanupReport::unconfirmed(AgentError::CleanupUncertain)
        .with_operation_failure(Some(AgentError::CleanupUncertain));
    assert_eq!(report.into_result(), Err(AgentError::CleanupUncertain));
}

#[test]
fn unconfirmed_cleanup_with_failed_audit_reports_both() {
    let report = CleanupReport::new(
        ResourceCleanup::Unconfirmed(AgentError::CleanupUncertain),
        Err(AgentError::AuditFailure),
    );
    assert_eq!(
        report.into_result(),
        Err(AgentError::OperationAndCleanupFailure {
            operation_error: Box::new(AgentError::AuditFailure),
            cleanup_error: Box::new(AgentError::CleanupUncertain),
        })
    );
    let audit_only = CleanupReport::confirmed(closed()).with_audit(Err(AgentError::AuditFailure));
    assert!(audit_only.is_confirmed());
    assert_eq!(audit_only.into_result(), Err(AgentError::AuditFailure));
}

#[test]
fn execution_report_keeps_a_known_outcome_beside_a_failure() {
    let report = ExecutionReport::new(
        Some(Ok(ExecutionOutcome::Completed)),
        Some(AgentError::AuditFailure),
        ProviderSessionState::Usable,
    );
    assert_eq!(report.source(), ExecutionReportSource::Provider);
    assert_eq!(
        report.into_result(),
        Err(AgentError::ExecutionObservation {
            error: Box::new(AgentError::AuditFailure),
            execution_result: Some(Box::new(Ok(ExecutionOutcome::Completed))),
        })
    );
    let plain = ExecutionReport::new(
        Some(Ok(ExecutionOutcome::OutputLimit)),
        None,
        ProviderSessionState::Usable,
    );
    assert_eq!(plain.into_result(), Ok(ExecutionOutcome::OutputLimit));
}

#[test]
fn execution_report_without_reply_is_cancelled_locally_or_unresolved() {
    let local = ExecutionReport::cancelled_locally(CleanupReport::confirmed(closed()));
    assert_eq!(local.source(), ExecutionReportSource::LocalCancellation);
    assert_eq!(local.into_result(), Ok(ExecutionOutcome::Cancelled));
    let unknown = ExecutionReport::new(None, None, ProviderSessionState::CleanupRequired);
    assert_eq!(unknown.into_result(), Err(AgentError::SubmissionUnresolved));
    let failed_cleanup =
        ExecutionReport::cancelled_locally(CleanupReport::unconfirmed(AgentError::CleanupUncertain));
    assert_eq!(failed_cleanup.into_result(), Err(AgentError::CleanupUncertain));
}

#[test]
fn execution_report_does_not_repeat_the_same_failure() {
    let report = ExecutionReport::new(
        Some(Err(AgentError::Deadline)),
        Some(AgentError::Deadline),
        ProviderSessionState::Usable,
    );
    assert_eq!(report.into_result(), Err(AgentError::Deadline));
    let cleanup = CleanupReport::unconfirmed(AgentError::CleanupUncertain)
        .with_operation_failure(Some(AgentError::Transport("pipe".into())));
    let report = ExecutionReport::new(
        None,
        Some(AgentError::Transport("pipe".into())),
        ProviderSessionState::CleanupReported(cleanup),
    );
    assert_eq!(
        report.into_result(),
        Err(AgentError::OperationAndCleanupFailure {
            operation_error: Box::new(AgentError::Transport("pipe".into())),
            cleanup_error: Box::new(AgentError::CleanupUncertain),
        })
    );
}

#[test]
fn rejected_reply_is_its_error() {
    assert_eq!(
        ProviderExecutionReply::Rejected(AgentError::Busy).into_result(),
        Err(AgentError::Busy)
    );
    let failure = ProviderOperationFailure::new(AgentError::Closed, ProviderSessionState::Usable);
    assert_eq!(failure.error(), &AgentError::Closed);
    assert_eq!(failure.permission_selection(), None);
    let observation = ObservationFailure::new(AgentError::Deadline, ObservationFailureCause::DeadlineExceeded);
    assert_eq!(observation.cause(), ObservationFailureCause::DeadlineExceeded);
    assert_eq!(observation.into_error(), AgentError::Deadline);
}

#[test]
fn finalized_recipes_reject_repeated_or_late_overflow_and_excess_facts() {
    assert!(FinalizedExecutionProjection::new(vec![
        FinalizedFailureComponent::OperationOverflow,
        FinalizedFailureComponent::OperationOverflow
    ])
    .is_err());
    assert!(FinalizedExecutionProjection::new(vec![
        FinalizedFailureComponent::AuditOverflow,
        FinalizedFailureComponent::Audit
    ])
    .is_err());
    assert!(FinalizedExecutionProjection::new(vec![
        FinalizedFailureComponent::OperationOverflow,
        FinalizedFailureComponent::PermissionDeliveryAndAudit {
            delivery_error: AgentError::Deadline
        }
    ])
    .is_err());
    assert!(FinalizedExecutionProjection::new(Vec::new()).is_ok());
    let many = (0..129).map(|_| FinalizedFailureComponent::Audit).collect::<Vec<_>>();
    assert!(FinalizedExecutionProjection::new(many).is_err());
    let fits = (0..128).map(|_| FinalizedFailureComponent::Audit).collect::<Vec<_>>();
    assert!(FinalizedExecutionProjection::new(fits).is_ok());
}

#[test]
fn finalized_failures_project_into_balanced_pairs() {
    let projection = FinalizedExecutionProjection::new(vec![
        FinalizedFailureComponent::Operation(AgentError::Busy),
        FinalizedFailureComponent::Audit,
        FinalizedFailureComponent::Operation(AgentError::Closed),
        FinalizedFailureComponent::Operation(AgentError::Deadline),
    ])
    .unwrap();
    assert_eq!(
        projection.operation_failure(),
        Some(AgentError::MultipleOperationFailures {
            first_error: Box::new(AgentError::Busy),
            subsequent_error: Box::new(AgentError::MultipleOperationFailures {
                first_error: Box::new(AgentError::Closed),
                subsequent_error: Box::new(AgentError::Deadline),
            }),
        })
    );
    assert_eq!(projection.audit_result(), Err(AgentError::AuditFailure));
    let empty = FinalizedExecutionProjection::new(Vec::new()).unwrap();
    assert_eq!(empty.operation_failure(), None);
    assert_eq!(empty.audit_result(), Ok(()));
    assert_eq!(empty.consumer_failure(), None);
    let wide = FinalizedExecutionProjection::new(
        (0..33).map(|_| FinalizedFailureComponent::Audit).collect(),
    )
    .unwrap();
    assert_eq!(wide.consumer_failure(), Some(AgentError::DiagnosticLimit));
}

#[test]
fn unnegotiated_provider_facts_reset_to_unknown() {
    let published = ProviderOperationCapabilities {
        negotiated: false,
        native_steering: true,
        permission_denial: PermissionDenialCapability::SupportedForOfferedPermissionReviews,
        elicitation_forwarding: ElicitationForwardingCapability::Unsupported,
        ..ProviderOperationCapabilities::default()
    };
    let resolved = OperationCapabilities::resolve(published);
    assert!(!resolved.negotiated());
    assert!(resolved.native_steering());
    assert_eq!(resolved.permission_denial(), PermissionDenialCapability::Unknown);
    assert_eq!(
        resolved.elicitation_forwarding(),
        ElicitationForwardingCapability::Unknown
    );
    assert_eq!(
        resolved.pre_tool_policy(),
        PreToolPolicyCapability::UnsupportedNotImplemented
    );
    let negotiated = OperationCapabilities::resolve(ProviderOperationCapabilities {
        negotiated: true,
        ..published
    });
    assert_eq!(
        negotiated.permission_denial(),
        PermissionDenialCapability::SupportedForOfferedPermissionReviews
    );
    assert_eq!(OperationCapabilities::default(), OperationCapabilities::resolve(ProviderOperationCapabilities::default()));
}

#[test]
fn provider_identity_validates_each_component() {
    let identity = ProviderIdentity::new("fixture", "exact-model", "workspace:local").unwrap();
    assert_eq!(identity.name(), "fixture");
    assert_eq!(identity.model_id(), "exact-model");
    assert_eq!(identity.context(), "workspace:local");
    assert!(ProviderIdentity::new("fixture", "model", "").is_ok());
    assert!(matches!(ProviderIdentity::new("", "model", ""), Err(AgentError::Configuration(_))));
    assert!(matches!(ProviderIdentity::new("fix\tture", "model", ""), Err(AgentError::Configuration(_))));
    assert!(matches!(ProviderIdentity::new("fixture", "", ""), Err(AgentError::Configuration(_))));
    assert!(matches!(ProviderIdentity::new("fixture", "model", "a\0b"), Err(AgentError::Configuration(_))));
    assert!(ProviderIdentity::new(&"n".repeat(256), "model", "").is_ok());
    assert!(ProviderIdentity::new(&"n".repeat(257), "model", "").is_err());
    assert!(ProviderIdentity::new("fixture", "model", &"c".repeat(4096)).is_ok());
    assert!(ProviderIdentity::new("fixture", "model", &"c".repeat(4097)).is_err());
    assert!(ProviderIdentity::new("fixture", "model", "line\nbreak").is_ok());
}

#[test]
fn close_requests_carry_their_cause_and_initiator() {
    let actor = ActionContext::new("user", "cli", "close").unwrap();
    let explicit = SessionCloseRequest::Explicit(actor.clone());
    assert_eq!(explicit.reason(), PermissionCancellationReason::session_closed());
    assert_eq!(explicit.origin(), CancellationOrigin::Client(actor));
    assert_eq!(
        SessionCloseRequest::DeadlineExceeded.reason(),
        PermissionCancellationReason::deadline_exceeded()
    );
    assert_eq!(SessionCloseRequest::ExecutionFailed.origin(), CancellationOrigin::Runtime);
}

#[test]
fn failed_attachment_phase_carries_its_diagnostic() {
    let failure = AttachmentFailure::new(
        AttachmentFailureCode::Provider,
        7,
        AttachmentCause::Initial,
        AgentError::Transport("spawn".into()),
    );
    assert_eq!(failure.code(), AttachmentFailureCode::Provider);
    assert_eq!(failure.generation(), 7);
    let status = AttachmentStatus::new(
        AttachmentPhase::Failed(AttachmentFailureCode::Provider),
        Some(failure),
        None,
    );
    assert_eq!(status.phase(), AttachmentPhase::Failed(AttachmentFailureCode::Provider));
    assert_eq!(status.failure().unwrap().error(), &AgentError::Transport("spawn".into()));
    assert!(status.evidence_failure().is_none());
    let attached = AttachmentStatus::new(AttachmentPhase::Attached, None, None);
    assert!(attached.failure().is_none());
}
