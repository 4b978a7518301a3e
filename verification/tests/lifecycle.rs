use nessa_sdk::agent_execution::agents::attachment::{AttachmentFailureCode, AttachmentPhase, AttachmentRequest};
use nessa_sdk::agent_execution::agents::lifecycle::{
    awaited_evidence, join_evidence, EvidenceSlot, EvidenceTransition, FinalizeOutcome, LifecycleState, ProviderStateEffect,
    ProviderStateFacts, ReportFacts, WorkAdmission, WorkPhase, WorkRefusal,
};
use nessa_sdk::agent_execution::agents::AgentError;
use nessa_sdk::agent_execution::executions::AttachmentAuditStage;
use nessa_sdk::agent_execution::permissions::ActionContext;
use nessa_sdk::agent_execution::providers::{CleanupReport, CloseOutcome, SessionCloseRequest};
use nessa_sdk::domain::attachment::AttachmentCause;
use nessa_sdk::domain::scheduling::SchedulingCause;

fn actor() -> ActionContext {
    ActionContext::new("principal", "surface", "request").unwrap()
}

fn success() -> ReportFacts {
    ReportFacts { confirmed: true, audit_ok: true }
}

/// A lifecycle with a ready attachment of generation 0.
fn attached() -> LifecycleState {
    let mut state = LifecycleState::new(false);
    let grant = state
        .authorize_attachment(AttachmentRequest::CallerRequested(actor()), false)
        .unwrap();
    assert_eq!(grant.cause, AttachmentCause::Initial);
    let start = state.start_attachment(&grant, true).unwrap();
    assert_eq!(start.generation, 0);
    assert!(state.publish_attachment(0));
    assert_eq!(state.phase(), AttachmentPhase::Starting);
    assert!(state.acknowledge_attachment_publication(0));
    assert_eq!(state.phase(), AttachmentPhase::Attached);
    state
}

#[test]
fn a_new_lifecycle_is_open_and_absent() {
    let state = LifecycleState::new(true);
    assert!(!state.is_closed());
    assert_eq!(state.phase(), AttachmentPhase::Absent);
    assert!(!state.is_usable());
    assert!(state.accepts_queued());
    assert_eq!(state.work_generation(), 0);
}

#[test]
fn a_recorded_context_reopens_and_automatic_recovery_waits_for_readiness() {
    let mut state = LifecycleState::new(true);
    let refused = state.authorize_attachment(AttachmentRequest::AutomaticRecovery, false);
    assert_eq!(refused.unwrap_err(), AgentError::AttachmentAuthorizationStale);
    let grant = state
        .authorize_attachment(AttachmentRequest::CallerRequested(actor()), false)
        .unwrap();
    assert_eq!(grant.cause, AttachmentCause::Reopen);
    assert_eq!(state.phase(), AttachmentPhase::Waiting);
    let second = state.authorize_attachment(AttachmentRequest::CallerRequested(actor()), false);
    assert_eq!(second.unwrap_err(), AgentError::AttachmentAuthorizationStale);
}

#[test]
fn a_grant_of_another_owner_cannot_start() {
    let mut state = LifecycleState::new(false);
    let grant = state
        .authorize_attachment(AttachmentRequest::CallerRequested(actor()), false)
        .unwrap();
    assert_eq!(
        state.start_attachment(&grant, false).unwrap_err(),
        AgentError::AttachmentAuthorizationStale
    );
    assert!(state.start_attachment(&grant, true).is_ok());
    assert_eq!(
        state.start_attachment(&grant, true).unwrap_err(),
        AgentError::AttachmentAuthorizationStale
    );
}

#[test]
fn an_abandoned_authorization_returns_to_absent_once_audited() {
    let mut state = LifecycleState::new(false);
    let grant = state
        .authorize_attachment(AttachmentRequest::CallerRequested(actor()), false)
        .unwrap();
    let abandonment = state.abandon_attachment_authorization(&grant).unwrap();
    assert_eq!(abandonment.generation, 1);
    assert_eq!(abandonment.audited_generation, 0);
    assert_eq!(state.phase(), AttachmentPhase::Waiting);
    assert!(state.abandon_attachment_authorization(&grant).is_none());
    state.settle_abandonment(abandonment, Ok(()));
    assert_eq!(state.phase(), AttachmentPhase::Absent);
}

#[test]
fn a_failed_abandonment_audit_fails_the_attachment() {
    let mut state = LifecycleState::new(false);
    let grant = state
        .authorize_attachment(AttachmentRequest::CallerRequested(actor()), false)
        .unwrap();
    let abandonment = state.abandon_attachment_authorization(&grant).unwrap();
    state.settle_abandonment(abandonment, Err(AgentError::AuditFailure));
    assert_eq!(state.phase(), AttachmentPhase::Failed(AttachmentFailureCode::Audit));
    let status = state.attachment_status();
    assert_eq!(status.failure().unwrap().generation(), 1);
    assert!(status.evidence_failure().is_some());
}

#[test]
fn a_failed_attempt_refuses_queued_input() {
    let mut state = LifecycleState::new(false);
    let grant = state
        .authorize_attachment(AttachmentRequest::CallerRequested(actor()), false)
        .unwrap();
    state.start_attachment(&grant, true).unwrap();
    assert_eq!(state.fail_attachment(0, AttachmentFailureCode::Provider, AgentError::Closed, false), Some(true));
    assert_eq!(state.fail_attachment(0, AttachmentFailureCode::Provider, AgentError::Closed, false), None);
    assert_eq!(state.fail_attachment(5, AttachmentFailureCode::Provider, AgentError::Closed, false), None);
    let refused = state.accept_waiting_work().unwrap_err();
    assert_eq!(
        refused,
        WorkRefusal::Refused(AgentError::AttachmentUnavailable(AttachmentPhase::Failed(
            AttachmentFailureCode::Provider
        )))
    );
}

#[test]
fn active_work_needs_a_usable_attachment() {
    let mut state = LifecycleState::new(false);
    assert_eq!(
        state.accept_work().unwrap_err(),
        WorkRefusal::Refused(AgentError::AttachmentUnavailable(AttachmentPhase::Absent))
    );
    let queued = state.accept_waiting_work().unwrap();
    assert_eq!(queued, WorkAdmission { id: 0, work_generation: 0, provider_generation: 0 });
    assert_eq!(
        state.activate_waiting(0).unwrap_err(),
        AgentError::AttachmentUnavailable(AttachmentPhase::Absent)
    );
}

#[test]
fn queued_work_activates_under_the_current_generations() {
    let mut state = attached();
    let queued = state.accept_waiting_work().unwrap();
    assert_eq!(state.activate_waiting(queued.id), Ok((0, 1)));
    assert_eq!(state.activate_waiting(queued.id), Err(AgentError::Closed));
    assert_eq!(state.defer_active(queued.id, 0, 1), Ok(()));
    assert_eq!(state.defer_active(queued.id, 0, 1), Err(AgentError::Closed));
    assert_eq!(state.activate_waiting(99), Err(AgentError::Closed));
}

#[test]
fn a_stop_reaches_active_owners_and_keeps_their_first_cause() {
    let mut state = attached();
    let active = state.accept_work().unwrap();
    let waiting = state.accept_waiting_work().unwrap();
    let stop = state.start_stop(SessionCloseRequest::ExecutionFailed);
    assert!(!stop.shared);
    assert_eq!(stop.ticket.id, 1);
    assert_eq!(stop.ticket.attempt_id, 0);
    assert!(state.is_closed());
    assert!(!state.is_usable());
    assert_eq!(state.work_generation(), 1);
    let first = state.cancellation_of(active.id).unwrap();
    assert_eq!(first.cause, SchedulingCause::RunnerStopped);
    assert!(first.actor.is_none());
    assert!(state.cancellation_of(waiting.id).is_none());
    let joined = state.start_stop(SessionCloseRequest::Explicit(actor()));
    assert!(joined.shared);
    assert_eq!(joined.ticket.request, SessionCloseRequest::ExecutionFailed);
    assert_eq!(state.cancellation_of(active.id).unwrap().cause, SchedulingCause::RunnerStopped);
    let reached = state.cancellation_of(waiting.id).unwrap();
    assert_eq!(reached.cause, SchedulingCause::SessionClosed);
    assert_eq!(reached.actor, Some(actor()));
}

#[test]
fn admission_reopens_only_after_earlier_owners_retire() {
    let mut state = attached();
    let active = state.accept_work().unwrap();
    let stop = state.start_stop(SessionCloseRequest::ExecutionFailed);
    let serial = stop.cleanup.unwrap();
    assert!(state.record_cleanup(serial, success()));
    assert!(!state.record_cleanup(serial + 1, success()));
    let outcome = state.finalize_stop(stop.ticket.id, stop.ticket.attempt_id, success());
    assert_eq!(
        outcome,
        FinalizeOutcome::Finalized { report: success(), recorded: true, reopened: false }
    );
    assert!(state.is_closed());
    assert!(state.accepts_queued());
    assert_eq!(
        state.finalize_stop(stop.ticket.id, stop.ticket.attempt_id, success()),
        FinalizeOutcome::AlreadyFinal(Some(success()))
    );
    assert!(state.release_work(active.id));
    assert!(!state.is_closed());
    assert_eq!(state.phase(), AttachmentPhase::Absent);
    assert_eq!(
        state.authorize_attachment(AttachmentRequest::AutomaticRecovery, false).unwrap_err(),
        AgentError::Closed
    );
    assert!(state.settle_confirmed_cleanup());
    let grant = state.authorize_attachment(AttachmentRequest::AutomaticRecovery, false).unwrap();
    assert_eq!(grant.cause, AttachmentCause::AutomaticRecovery);
    assert!(grant.actor.is_none());
}

#[test]
fn failed_cleanup_blocks_admission_and_reaches_waiting_owners() {
    let mut state = attached();
    let waiting = state.accept_waiting_work().unwrap();
    let stop = state.start_stop(SessionCloseRequest::ExecutionFailed);
    assert!(state.cancellation_of(waiting.id).is_none());
    let failed = ReportFacts { confirmed: false, audit_ok: true };
    let outcome = state.finalize_stop(stop.ticket.id, stop.ticket.attempt_id, failed);
    assert_eq!(outcome, FinalizeOutcome::Finalized { report: failed, recorded: false, reopened: false });
    assert!(state.cancellation_of(waiting.id).is_some());
    assert!(!state.accepts_queued());
    assert_eq!(state.finalize_stop(stop.ticket.id, 7, success()), FinalizeOutcome::NotCurrent);
}

#[test]
fn a_confirmed_report_replaces_a_failed_final_cleanup() {
    let mut state = attached();
    let stop = state.start_stop(SessionCloseRequest::ExecutionFailed);
    let failed = ReportFacts { confirmed: false, audit_ok: true };
    assert_eq!(
        state.apply_provider_state(state.work_generation(), ProviderStateFacts::CleanupReported(failed)),
        ProviderStateEffect::Unchanged
    );
    assert!(state.record_cleanup(stop.cleanup.unwrap(), failed));
    assert_eq!(
        state.finalize_stop(stop.ticket.id, stop.ticket.attempt_id, success()),
        FinalizeOutcome::Finalized { report: failed, recorded: true, reopened: false }
    );
    assert!(state.is_closed());
    let effect = state.apply_provider_state(0, ProviderStateFacts::CleanupReported(success()));
    assert_eq!(effect, ProviderStateEffect::Replaced);
    let outcome = state.finalize_stop(stop.ticket.id, stop.ticket.attempt_id + 1, success());
    assert_eq!(outcome, FinalizeOutcome::Finalized { report: success(), recorded: true, reopened: true });
    assert!(!state.is_closed());
}

#[test]
fn a_late_failure_never_stops_a_newer_generation() {
    let mut state = attached();
    assert_eq!(
        state.apply_provider_state(5, ProviderStateFacts::CleanupRequired),
        ProviderStateEffect::Unchanged
    );
    assert!(!state.is_closed());
    assert_eq!(
        state.apply_provider_state(0, ProviderStateFacts::Usable),
        ProviderStateEffect::Unchanged
    );
    assert_eq!(
        state.apply_provider_state(0, ProviderStateFacts::CleanupRequired),
        ProviderStateEffect::Fenced
    );
    assert!(state.is_closed());
    assert_eq!(state.work_generation(), 1);
    assert!(state.start_stop_for(0, SessionCloseRequest::ExecutionFailed).is_none());
    assert!(state.start_stop_for(1, SessionCloseRequest::ExecutionFailed).is_some());
}

#[test]
fn an_audit_failure_of_confirmed_cleanup_refuses_automatic_admission() {
    let mut state = attached();
    let effect = state.apply_provider_state(
        0,
        ProviderStateFacts::CleanupReported(ReportFacts { confirmed: true, audit_ok: false }),
    );
    assert_eq!(effect, ProviderStateEffect::Recorded { created: true, blocked: true });
    assert!(state.is_closed());
    assert_eq!(state.phase(), AttachmentPhase::Absent);
    assert_eq!(state.accept_work().unwrap_err(), WorkRefusal::CleanupAuditFailed);
}

#[test]
fn a_stop_closes_a_starting_attempt_and_awaits_its_audit() {
    let mut state = LifecycleState::new(false);
    let grant = state
        .authorize_attachment(AttachmentRequest::CallerRequested(actor()), false)
        .unwrap();
    state.start_attachment(&grant, true).unwrap();
    let stop = state.start_stop(SessionCloseRequest::Explicit(actor()));
    assert!(stop.opening_stop);
    assert!(!stop.cancel_authorization);
    let closing = stop.closing.unwrap();
    assert_eq!(closing.generation, 0);
    assert_eq!(closing.before, AttachmentAuditStage::Starting);
    assert_eq!(
        awaited_evidence(&stop.ticket),
        vec![
            EvidenceSlot { generation: 0, transition: EvidenceTransition::Started },
            EvidenceSlot { generation: 0, transition: EvidenceTransition::Closed },
        ]
    );
    assert!(!state.attachment_current(0));
    assert!(!state.publish_attachment(0));
}

#[test]
fn queued_owners_claim_failure_settlement_once() {
    let mut state = LifecycleState::new(false);
    let first = state.accept_waiting_work().unwrap();
    let second = state.accept_waiting_work().unwrap();
    let claimed = state.claim_waiting_failure(&[first.id, second.id]);
    assert_eq!(claimed.len(), 2);
    assert!(claimed.iter().all(|c| c.is_none()));
    state.start_stop(SessionCloseRequest::Explicit(actor()));
    assert!(state.cancellation_of(first.id).is_none());
}

#[test]
fn preparation_marks_the_provider_ready_for_its_generations() {
    let mut state = LifecycleState::new(false);
    let grant = state
        .authorize_attachment(AttachmentRequest::CallerRequested(actor()), false)
        .unwrap();
    state.start_attachment(&grant, true).unwrap();
    assert!(state.publish_attachment(0));
    assert!(state.admission_lost(0, 1, false));
    assert!(!state.admission_lost(0, 1, true));
    assert_eq!(state.confirm_preparation(0, 0), Err(AgentError::Closed));
    assert_eq!(state.confirm_preparation(0, 1), Ok(()));
    assert!(state.is_usable());
    assert_eq!(state.check_attached(0, 1), Ok(()));
    assert_eq!(state.check_attached(1, 1), Err(AgentError::Closed));
}

#[test]
fn awaited_audit_failures_join_in_order() {
    assert_eq!(join_evidence(vec![Ok(()), Ok(())]), Ok(()));
    assert_eq!(join_evidence(vec![Ok(()), Err(AgentError::AuditFailure)]), Err(AgentError::AuditFailure));
    assert_eq!(
        join_evidence(vec![Err(AgentError::AuditFailure), Ok(()), Err(AgentError::Deadline)]),
        Err(AgentError::MultipleOperationFailures {
            first_error: Box::new(AgentError::AuditFailure),
            subsequent_error: Box::new(AgentError::Deadline),
        })
    );
}

#[test]
fn evidence_failure_fails_the_audit_of_a_confirmed_report() {
    let report = CleanupReport::confirmed(CloseOutcome { forced: false }).with_evidence_failure(AgentError::AuditFailure);
    assert!(report.is_confirmed());
    assert_eq!(report.audit(), &Err(AgentError::AuditFailure));
    let twice = report.with_evidence_failure(AgentError::Deadline);
    assert_eq!(
        twice.audit(),
        &Err(AgentError::MultipleOperationFailures {
            first_error: Box::new(AgentError::AuditFailure),
            subsequent_error: Box::new(AgentError::Deadline),
        })
    );
}

#[test]
fn control_state_applies_only_to_its_own_attachment() {
    let mut state = attached();
    assert_eq!(
        state.apply_control_state(0, 7, ProviderStateFacts::CleanupRequired),
        ProviderStateEffect::Unchanged
    );
    assert_eq!(
        state.record_provider_state(0, 1, ProviderStateFacts::Usable),
        ProviderStateEffect::Unchanged
    );
    assert_eq!(state.block_control(0, 2), ProviderStateEffect::Unchanged);
    assert!(!state.is_closed());
    assert_eq!(
        state.apply_control_state(0, 1, ProviderStateFacts::CleanupRequired),
        ProviderStateEffect::Fenced
    );
    assert!(state.is_closed());
    let admission = state.accept_control();
    assert_eq!(admission.unwrap_err(), WorkRefusal::Refused(AgentError::Closed));
}
