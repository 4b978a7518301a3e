use nessa_sdk::agent_execution::agents::attachment::AttachmentFailureCode;
use nessa_sdk::agent_execution::agents::attachment_task::{
    attachment_audit, attachment_result, attachment_step, AttachmentAuditStep, AttachmentEvent, AttachmentPhase, AttachmentTask,
};
use nessa_sdk::agent_execution::agents::invocation_task::{
    admission_step, refusal_result, settlement_step, AdmissionEvent, AdmissionFailure, AdmissionPhase, AdmissionWork,
    InvocationAdmission, InvocationSettlement, SettlementEvent, SettlementWork,
};
use nessa_sdk::agent_execution::agents::pending_run::{
    pending_result, pending_run_step, PendingEvent, PendingPhase, PendingRun, PendingWork,
};
use nessa_sdk::agent_execution::agents::recovery::{
    drain_step, recovery_step, DrainEvent, DrainItem, DrainPhase, DrainWork, PanicRecovery, RecoveryEvent,
    RecoveryPhase, RecoveryWork,
};
use nessa_sdk::agent_execution::agents::steering_task::{
    steering_step, stopped_settlement_failure, NativeOutcome, RouteTaken, SteeringAnswer, SteeringEvent,
    SteeringPhase, SteeringTask, SteeringWork,
};
use nessa_sdk::agent_execution::agents::AgentError;
use nessa_sdk::agent_execution::executions::{AttachmentAuditCause, AttachmentAuditStage};
use nessa_sdk::agent_execution::sessions::StorageError;
use nessa_sdk::domain::executions::ExecutionOutcome;
use nessa_sdk::domain::scheduling::InvocationStage;

#[test]
fn a_successful_attachment_starts_the_runner() {
    let t = AttachmentTask::start();
    assert_eq!(t.phase, AttachmentPhase::AuditingStart);
    let (t, a) = attachment_step(t, AttachmentEvent::StartAudited);
    assert!(a.run_attachment && !a.settle);
    let (t, a) = attachment_step(t, AttachmentEvent::Attached);
    assert!(a.start_runner && a.settle && !t.failed);
    assert_eq!(t.phase, AttachmentPhase::Done);
    let (u, a) = attachment_step(t, AttachmentEvent::CleanedUp { clean: true });
    assert_eq!(u, t);
    assert!(!a.settle);
}

#[test]
fn a_taken_provider_failure_is_audited_then_shut_down() {
    let (t, _) = attachment_step(AttachmentTask::start(), AttachmentEvent::StartAudited);
    let (t, a) = attachment_step(t, AttachmentEvent::AttachFailed(AttachmentFailureCode::Provider));
    assert!(a.record_failure && t.failed);
    let (t, a) = attachment_step(t, AttachmentEvent::FailureRecorded { transitioned: true });
    assert!(a.audit_failure && !a.shut_down);
    let (t, a) = attachment_step(t, AttachmentEvent::FailureAudited { saved: false });
    assert!(a.retain_audit_error && a.shut_down && t.failure_audit_failed);
    let (t, a) = attachment_step(t, AttachmentEvent::CleanedUp { clean: false });
    assert!(a.settle && t.cleanup_failed && !a.start_runner);
    assert_eq!(t.phase, AttachmentPhase::Done);
}

#[test]
fn an_audit_failure_keeps_its_evidence_without_a_second_audit() {
    let (t, a) = attachment_step(
        AttachmentTask::start(),
        AttachmentEvent::StartAuditFailed(AttachmentFailureCode::Audit),
    );
    assert!(a.record_failure);
    let (taken, a) = attachment_step(t, AttachmentEvent::FailureRecorded { transitioned: true });
    assert!(a.retain_original && a.shut_down && !a.audit_failure);
    assert_eq!(taken.phase, AttachmentPhase::ShuttingDown);
    let (stale, a) = attachment_step(t, AttachmentEvent::FailureRecorded { transitioned: false });
    assert!(a.retain_original && a.settle && !a.shut_down);
    assert_eq!(stale.phase, AttachmentPhase::Done);
    let (t, _) = attachment_step(AttachmentTask::start(), AttachmentEvent::StartAudited);
    let (t, _) = attachment_step(t, AttachmentEvent::AttachFailed(AttachmentFailureCode::Storage));
    let (_, a) = attachment_step(t, AttachmentEvent::FailureRecorded { transitioned: false });
    assert!(!a.retain_original && a.settle);
}

#[test]
fn attachment_results_keep_every_failure() {
    assert_eq!(attachment_result(None, None, None), Ok(()));
    assert_eq!(attachment_result(Some(AgentError::Closed), None, None), Err(AgentError::Closed));
    assert_eq!(
        attachment_result(Some(AgentError::Closed), Some(AgentError::AuditFailure), Some(AgentError::CleanupUncertain)),
        Err(AgentError::OperationAndCleanupFailure {
            operation_error: Box::new(AgentError::MultipleOperationFailures {
                first_error: Box::new(AgentError::Closed),
                subsequent_error: Box::new(AgentError::AuditFailure),
            }),
            cleanup_error: Box::new(AgentError::CleanupUncertain),
        })
    );
}

#[test]
fn a_clean_run_takes_its_cause_from_history() {
    let (p, w) = pending_run_step(PendingRun::start(), PendingEvent::DispatchRecorded { saved: true });
    assert_eq!(w, PendingWork::Supervise);
    let supervised = PendingEvent::Supervised { started: true, failed: false, closed: false, owner_stopped: true };
    let (p, w) = pending_run_step(p, supervised);
    assert_eq!(w, PendingWork::CheckCancellation);
    let (p, w) = pending_run_step(p, PendingEvent::CancellationChecked { cancelled: false, owner_stopped: true });
    assert_eq!(w, PendingWork::Finish);
    assert!(!p.stopped);
    let (p, w) = pending_run_step(p, PendingEvent::Finished { saved: true });
    assert_eq!(w, PendingWork::ReadHistory);
    let (p, w) = pending_run_step(p, PendingEvent::HistoryRead { ok: true });
    assert_eq!(w, PendingWork::RecordSettlement { cancelled: false });
    let (p, w) = pending_run_step(p, PendingEvent::SettlementRecorded { saved: true });
    assert_eq!(w, PendingWork::SettleSubmission);
    let (p, w) = pending_run_step(p, PendingEvent::SubmissionSettled);
    assert_eq!((p.phase, w), (PendingPhase::Done, PendingWork::Nothing));
}

#[test]
fn a_failed_dispatch_settles_as_such_and_stops_the_queue() {
    let (p, w) = pending_run_step(PendingRun::start(), PendingEvent::DispatchRecorded { saved: false });
    assert_eq!(w, PendingWork::Finish);
    assert!(p.dispatch_failed && p.result_failed);
    let (p, w) = pending_run_step(p, PendingEvent::Finished { saved: true });
    assert_eq!(w, PendingWork::RecordSettlement { cancelled: false });
    let (p, w) = pending_run_step(p, PendingEvent::SettlementRecorded { saved: true });
    assert_eq!(w, PendingWork::CancelQueue);
    let (p, w) = pending_run_step(p, PendingEvent::QueueCancelled { storage_failed: true });
    assert_eq!(w, PendingWork::SettleSubmission);
    assert!(p.queue_failed);
}

#[test]
fn a_closed_run_is_cancelled_by_its_owner_stop() {
    let (p, _) = pending_run_step(PendingRun::start(), PendingEvent::DispatchRecorded { saved: true });
    let closed = PendingEvent::Supervised { started: true, failed: true, closed: true, owner_stopped: true };
    let (p, w) = pending_run_step(p, closed);
    assert_eq!(w, PendingWork::Finish);
    assert!(p.stopped);
    let (p, w) = pending_run_step(p, PendingEvent::Finished { saved: false });
    assert_eq!(w, PendingWork::RecordSettlement { cancelled: true });
    assert!(p.finish_failed);
    let (_, w) = pending_run_step(p, PendingEvent::SettlementRecorded { saved: true });
    assert_eq!(w, PendingWork::CancelQueue);
}

#[test]
fn an_unreadable_history_fails_the_run() {
    let (p, _) = pending_run_step(PendingRun::start(), PendingEvent::DispatchRecorded { saved: true });
    let ok = PendingEvent::Supervised { started: true, failed: false, closed: false, owner_stopped: false };
    let (p, _) = pending_run_step(p, ok);
    let (p, _) = pending_run_step(p, PendingEvent::CancellationChecked { cancelled: false, owner_stopped: false });
    let (p, _) = pending_run_step(p, PendingEvent::Finished { saved: true });
    let (p, w) = pending_run_step(p, PendingEvent::HistoryRead { ok: false });
    assert_eq!(w, PendingWork::CancelQueue);
    assert!(p.settlement_failed);
    let (q, w) = pending_run_step(p, PendingEvent::Finished { saved: true });
    assert_eq!((q, w), (p, PendingWork::Nothing));
}

#[test]
fn a_run_receipt_keeps_its_first_evidence_failure_and_the_queue_failure() {
    assert_eq!(pending_result(Ok(ExecutionOutcome::Completed), None, None, None), Ok(ExecutionOutcome::Completed));
    assert_eq!(
        pending_result(
            Ok(ExecutionOutcome::Completed),
            Some(StorageError::Busy),
            Some(StorageError::IdentityMismatch),
            None
        ),
        Err(AgentError::StorageAfterExecution {
            error: StorageError::Busy,
            execution_result: Box::new(Ok(ExecutionOutcome::Completed)),
        })
    );
    assert_eq!(
        pending_result(Err(AgentError::Closed), None, Some(StorageError::Busy), Some(StorageError::IdentityMismatch)),
        Err(AgentError::StorageAfterExecution {
            error: StorageError::IdentityMismatch,
            execution_result: Box::new(Err(AgentError::StorageAfterExecution {
                error: StorageError::Busy,
                execution_result: Box::new(Err(AgentError::Closed)),
            })),
        })
    );
}

fn routed(route: RouteTaken) -> SteeringTask {
    let (t, _) = steering_step(SteeringTask::start(), SteeringEvent::Recovered { found: false });
    let (t, _) = steering_step(t, SteeringEvent::Admitted { ok: true });
    let (t, w) = steering_step(t, SteeringEvent::Saved { ok: true });
    assert_eq!(w, SteeringWork::Route);
    let (t, _) = steering_step(t, SteeringEvent::Routed(route));
    t
}

#[test]
fn a_recovered_retry_is_answered_without_delivering_again() {
    let (t, w) = steering_step(SteeringTask::start(), SteeringEvent::Recovered { found: true });
    assert_eq!(w, SteeringWork::Answer);
    assert!(t.recovered && t.phase == SteeringPhase::Done);
    let (u, w) = steering_step(t, SteeringEvent::Delivered(NativeOutcome::Injected));
    assert_eq!((u, w), (t, SteeringWork::Nothing));
}

#[test]
fn an_injection_is_recorded_before_it_is_answered() {
    let t = routed(RouteTaken::Native);
    assert_eq!(t.phase, SteeringPhase::Delivering);
    let (t, w) = steering_step(t, SteeringEvent::Delivered(NativeOutcome::Injected));
    assert_eq!(w, SteeringWork::RecordInjection);
    let (t, w) = steering_step(t, SteeringEvent::InjectionRecorded { saved: true });
    assert_eq!(w, SteeringWork::SettleStopped);
    assert!(t.injected);
    let (t, w) = steering_step(t, SteeringEvent::StoppedSettled { storage_failed: false });
    assert_eq!(w, SteeringWork::Answer);
    assert!(!t.answers_failure());
}

#[test]
fn an_unsaved_injection_stops_the_agent_and_fails() {
    let (t, _) = steering_step(routed(RouteTaken::Native), SteeringEvent::Delivered(NativeOutcome::Injected));
    let (t, w) = steering_step(t, SteeringEvent::InjectionRecorded { saved: false });
    assert_eq!(w, SteeringWork::StopAgent);
    let (t, w) = steering_step(t, SteeringEvent::Stopped);
    assert_eq!(w, SteeringWork::SettleSubmission);
    let (t, w) = steering_step(t, SteeringEvent::SubmissionSettled);
    assert_eq!(w, SteeringWork::Answer);
    assert!(t.answers_failure() && !t.injected);
}

#[test]
fn prompt_required_steering_waits_for_the_boundary() {
    let (t, w) = steering_step(routed(RouteTaken::Native), SteeringEvent::Delivered(NativeOutcome::PromptRequired));
    assert_eq!(w, SteeringWork::Enqueue);
    let (t, _) = steering_step(t, SteeringEvent::Enqueued);
    assert!(t.queued);
    let (t, w) = steering_step(t, SteeringEvent::StoppedSettled { storage_failed: true });
    assert_eq!(w, SteeringWork::SettleSubmission);
    assert!(t.answers_failure());
    let t = routed(RouteTaken::Queue);
    assert_eq!(t.phase, SteeringPhase::Enqueueing);
}

#[test]
fn a_refused_route_saves_its_failure_and_stops_when_that_fails() {
    let t = routed(RouteTaken::Refused);
    assert!(t.failed);
    let (t, w) = steering_step(t, SteeringEvent::FailureFinished { saved: false });
    assert_eq!(w, SteeringWork::RecordFailure);
    let (t, w) = steering_step(t, SteeringEvent::FailureRecorded { saved: true });
    assert_eq!(w, SteeringWork::StopAgent);
    let (t, w) = steering_step(t, SteeringEvent::Stopped);
    assert_eq!(w, SteeringWork::SettleStopped);
    let (_, w) = steering_step(t, SteeringEvent::StoppedSettled { storage_failed: false });
    assert_eq!(w, SteeringWork::SettleSubmission);
    let (t, _) = steering_step(routed(RouteTaken::Refused), SteeringEvent::FailureFinished { saved: true });
    let (_, w) = steering_step(t, SteeringEvent::FailureRecorded { saved: true });
    assert_eq!(w, SteeringWork::SettleStopped);
}

#[test]
fn a_refused_admission_is_answered_before_anything_is_saved() {
    let (t, _) = steering_step(SteeringTask::start(), SteeringEvent::Recovered { found: false });
    let (t, w) = steering_step(t, SteeringEvent::Admitted { ok: false });
    assert_eq!(w, SteeringWork::Answer);
    assert!(t.refused_early);
}

fn retained(last: Option<InvocationStage>) -> (PanicRecovery, RecoveryWork) {
    let (t, w) = recovery_step(PanicRecovery::start(), RecoveryEvent::CleanedUp);
    assert_eq!(w, RecoveryWork::ReadMetadata);
    let read = match last {
        Some(last) => RecoveryEvent::MetadataRead { found: true, last },
        None => RecoveryEvent::MetadataRead { found: false, last: InvocationStage::Queued },
    };
    let (t, w) = recovery_step(t, read);
    assert_eq!(w, RecoveryWork::RetainFailure);
    recovery_step(t, RecoveryEvent::FailureRetained)
}

#[test]
fn a_panic_recovery_settles_a_queued_input_as_failed_dispatch() {
    let (t, w) = retained(Some(InvocationStage::Queued));
    assert_eq!(w, RecoveryWork::RecordSettlement { dispatch_failed: true });
    let (t, w) = recovery_step(t, RecoveryEvent::SettlementRecorded { saved: false });
    assert_eq!(w, RecoveryWork::CancelQueue);
    assert!(t.settlement_failed);
    let (t, w) = recovery_step(t, RecoveryEvent::QueueCancelled { storage_failed: false });
    assert_eq!(w, RecoveryWork::SettleSubmission);
    let (t, w) = recovery_step(t, RecoveryEvent::SubmissionSettled);
    assert_eq!((t.phase, w), (RecoveryPhase::Done, RecoveryWork::Answer));
}

#[test]
fn a_panic_recovery_asks_history_for_a_running_input_and_skips_settled_ones() {
    let (t, w) = retained(Some(InvocationStage::Running));
    assert_eq!(w, RecoveryWork::ReadHistory);
    let (_, w) = recovery_step(t, RecoveryEvent::HistoryRead { ok: true });
    assert_eq!(w, RecoveryWork::RecordSettlement { dispatch_failed: false });
    let (_, w) = retained(Some(InvocationStage::Settled));
    assert_eq!(w, RecoveryWork::CancelQueue);
    let (t, w) = retained(None);
    assert_eq!(w, RecoveryWork::CancelQueue);
    let (t, w) = recovery_step(t, RecoveryEvent::QueueCancelled { storage_failed: true });
    assert_eq!(w, RecoveryWork::Answer);
    assert!(t.queue_failed);
}

#[test]
fn a_drained_input_is_saved_once_and_answered_closed() {
    let (t, w) = drain_step(DrainItem::start(), DrainEvent::LastRead { recovering: false });
    assert_eq!(w, DrainWork::SaveCancellation);
    let (t, w) = drain_step(t, DrainEvent::Saved { ok: true });
    assert_eq!((t.phase, w), (DrainPhase::Done, DrainWork::Answer));
    let (t, w) = drain_step(DrainItem::start(), DrainEvent::LastRead { recovering: true });
    assert_eq!(w, DrainWork::SettleReceipt);
    assert!(t.recovering);
    let (_, w) = drain_step(t, DrainEvent::Saved { ok: true });
    assert_eq!(w, DrainWork::Nothing);
    let (t, _) = drain_step(DrainItem::start(), DrainEvent::LastRead { recovering: false });
    let (t, w) = drain_step(t, DrainEvent::Saved { ok: false });
    assert_eq!(w, DrainWork::SettleReceipt);
    assert!(t.save_failed);
}

fn admitted_to_hooks(saved_before: bool) -> InvocationAdmission {
    let (a, w) = InvocationAdmission::start(saved_before);
    let a = if saved_before {
        assert_eq!(w, AdmissionWork::Attach);
        a
    } else {
        assert_eq!(w, AdmissionWork::Save);
        admission_step(a, AdmissionEvent::Saved { ok: true }).0
    };
    let (a, w) = admission_step(a, AdmissionEvent::Attached { ok: true });
    assert_eq!(w, AdmissionWork::Validate);
    let (a, w) = admission_step(a, AdmissionEvent::Validated { ok: true });
    assert_eq!(w, AdmissionWork::RunBeforeHooks);
    a
}

#[test]
fn an_admitted_invocation_prepares_drains_and_dispatches() {
    let a = admitted_to_hooks(false);
    let (a, w) = admission_step(a, AdmissionEvent::BeforeHooksRan { ok: true });
    assert_eq!(w, AdmissionWork::Prepare);
    let (a, w) = admission_step(a, AdmissionEvent::Prepared { ok: true });
    assert_eq!(w, AdmissionWork::Drain);
    let (a, w) = admission_step(a, AdmissionEvent::Drained { ok: true });
    assert_eq!((a.phase, w), (AdmissionPhase::Dispatching, AdmissionWork::Dispatch));
}

#[test]
fn a_failed_before_hook_is_recorded_saved_and_answered_without_after_hooks() {
    let (a, w) = admission_step(admitted_to_hooks(false), AdmissionEvent::BeforeHooksRan { ok: false });
    assert_eq!(w, AdmissionWork::RecordStop);
    assert_eq!(a.failure, Some(AdmissionFailure::BeforeHook));
    let (a, w) = admission_step(a, AdmissionEvent::StopRecorded { saved: false });
    assert_eq!(w, AdmissionWork::Finish);
    assert!(a.stop_failed);
    let (a, w) = admission_step(a, AdmissionEvent::Finished { saved: true });
    assert_eq!((a.phase, w), (AdmissionPhase::Done, AdmissionWork::Answer));
}

#[test]
fn a_failed_preparation_still_runs_the_after_hooks() {
    let (a, _) = admission_step(admitted_to_hooks(true), AdmissionEvent::BeforeHooksRan { ok: true });
    let (a, w) = admission_step(a, AdmissionEvent::Prepared { ok: true });
    assert_eq!(w, AdmissionWork::Drain);
    let (a, w) = admission_step(a, AdmissionEvent::Drained { ok: false });
    assert_eq!(w, AdmissionWork::RecordStop);
    let (a, _) = admission_step(a, AdmissionEvent::StopRecorded { saved: true });
    let (a, w) = admission_step(a, AdmissionEvent::Finished { saved: false });
    assert_eq!(w, AdmissionWork::RunAfterHooks);
    assert!(a.finish_failed);
    let (_, w) = admission_step(a, AdmissionEvent::AfterHooksRan);
    assert_eq!(w, AdmissionWork::Answer);
}

#[test]
fn a_refused_direct_input_settles_its_receipt_and_a_queued_one_does_not() {
    let (a, _) = InvocationAdmission::start(false);
    let (a, _) = admission_step(a, AdmissionEvent::Saved { ok: true });
    let (a, w) = admission_step(a, AdmissionEvent::Attached { ok: false });
    assert_eq!(w, AdmissionWork::RecordStop);
    let (a, _) = admission_step(a, AdmissionEvent::StopRecorded { saved: true });
    let (a, w) = admission_step(a, AdmissionEvent::Finished { saved: true });
    assert_eq!(w, AdmissionWork::SettleSubmission);
    let (_, w) = admission_step(a, AdmissionEvent::SubmissionSettled);
    assert_eq!(w, AdmissionWork::Answer);
    let (a, _) = admission_step(InvocationAdmission::start(true).0, AdmissionEvent::Attached { ok: true });
    let (a, _) = admission_step(a, AdmissionEvent::Validated { ok: false });
    let (a, _) = admission_step(a, AdmissionEvent::StopRecorded { saved: true });
    let (_, w) = admission_step(a, AdmissionEvent::Finished { saved: true });
    assert_eq!(w, AdmissionWork::Answer);
    let (a, w) = admission_step(InvocationAdmission::start(false).0, AdmissionEvent::Saved { ok: false });
    assert_eq!((a.phase, w, a.failure), (AdmissionPhase::Done, AdmissionWork::Answer, None));
}

#[test]
fn a_refusal_keeps_its_storage_failures() {
    assert_eq!(refusal_result(AgentError::Closed, None, None), Err(AgentError::Closed));
    assert_eq!(
        refusal_result(AgentError::Closed, Some(StorageError::Busy), Some(StorageError::IdentityMismatch)),
        Err(AgentError::StorageAfterExecution {
            error: StorageError::IdentityMismatch,
            execution_result: Box::new(Err(AgentError::StorageAfterExecution {
                error: StorageError::Busy,
                execution_result: Box::new(Err(AgentError::Closed)),
            })),
        })
    );
}

#[test]
fn a_settlement_saves_then_runs_hooks_then_settles() {
    let (s, w) = InvocationSettlement::start(false, false, false);
    assert_eq!(w, SettlementWork::RecordStop);
    let (s, w) = settlement_step(s, SettlementEvent::StopRecorded { saved: false });
    assert_eq!(w, SettlementWork::Finish);
    assert!(s.stop_failed);
    let (s, w) = settlement_step(s, SettlementEvent::Finished { saved: true });
    assert_eq!(w, SettlementWork::RunAfterHooks);
    let (s, w) = settlement_step(s, SettlementEvent::AfterHooksRan);
    assert_eq!(w, SettlementWork::SettleSubmission);
    let (_, w) = settlement_step(s, SettlementEvent::SubmissionSettled);
    assert_eq!(w, SettlementWork::Answer);
}

#[test]
fn a_contradicted_settlement_shuts_down_before_saving() {
    let (s, w) = InvocationSettlement::start(true, false, true);
    assert_eq!(w, SettlementWork::ShutDown);
    let (s, w) = settlement_step(s, SettlementEvent::ShutDown);
    assert_eq!(w, SettlementWork::Finish);
    assert!(s.observation_failed);
    let (_, w) = InvocationSettlement::start(true, true, true);
    assert_eq!(w, SettlementWork::Finish);
}

#[test]
fn a_delivery_answers_by_what_happened() {
    let (t, _) = steering_step(SteeringTask::start(), SteeringEvent::Recovered { found: true });
    assert_eq!(t.answer(), SteeringAnswer::Recovered);
    let t = routed(RouteTaken::Refused);
    assert_eq!(t.answer(), SteeringAnswer::Failure);
    let (t, _) = steering_step(routed(RouteTaken::Queue), SteeringEvent::Enqueued);
    assert_eq!(t.answer(), SteeringAnswer::Delivered);
    assert_eq!(stopped_settlement_failure(None, StorageError::Busy), AgentError::Storage(StorageError::Busy));
    assert_eq!(
        stopped_settlement_failure(Some(AgentError::Closed), StorageError::Busy),
        AgentError::StorageAfterExecution {
            error: StorageError::Busy,
            execution_result: Box::new(Err(AgentError::Closed)),
        }
    );
}

#[test]
fn a_failed_attachment_is_audited_from_starting_to_failed() {
    let session = nessa_sdk::domain::ids::SessionId::new("s").unwrap();
    let failed = attachment_audit(session.clone(), 3, AttachmentAuditStep::Failed, None);
    assert_eq!(
        (failed.before(), failed.after(), failed.cause(), failed.generation()),
        (AttachmentAuditStage::Starting, AttachmentAuditStage::Failed, AttachmentAuditCause::Failed, 3)
    );
    let published = attachment_audit(session, 3, AttachmentAuditStep::Published, None);
    assert_eq!(
        (published.before(), published.after(), published.cause()),
        (AttachmentAuditStage::Starting, AttachmentAuditStage::ContextPublished, AttachmentAuditCause::Published)
    );
}
