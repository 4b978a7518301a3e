use nessa_sdk::agent_binding::contracts::{validate_prompt_shape, BindingError, Prompt};
use nessa_sdk::agent_execution::agents::queue::{
    admit_queued, admit_submission, take_next, withdraw_queued, withdrawal_receipt, MAX_QUEUED,
};
use nessa_sdk::agent_execution::agents::scheduling::QueueRemoval;
use nessa_sdk::agent_execution::agents::runner::{
    fault_message, invocation_step, reply_settlement, Awaiting, InvocationAction, InvocationEvent,
    InvocationLoop, ObservationFault, ObservedUpdate, ReplyCleanup,
};
use nessa_sdk::agent_execution::agents::settlement::{
    restore_receipt, drains_after_panic, enqueue_recovery, invocation_panic_failure, retry_decision, RestoredReceipt,
    SubmissionIntent,
};
use nessa_sdk::agent_execution::providers::{CleanupReport, CloseOutcome, ResourceCleanup};
use nessa_sdk::agent_execution::agents::AgentError;
use nessa_sdk::agent_execution::sessions::StorageError;
use nessa_sdk::agent_execution::permissions::{ActionContext, ApprovalModeSnapshot, CancellationOrigin};
use nessa_sdk::domain::permissions::PermissionCancellationReason;
use nessa_sdk::domain::executions::ExecutionOutcome;
use nessa_sdk::domain::ids::ExecutionId;
use nessa_sdk::domain::scheduling::{InvocationStage, SchedulingError, SubmissionMode};

fn id(value: &str) -> ExecutionId {
    ExecutionId::new(value).unwrap()
}

fn actor(request: &str) -> ActionContext {
    ActionContext::new("user", "cli", request).unwrap()
}

fn reply(rejected: bool, cleanup: ReplyCleanup) -> InvocationEvent {
    InvocationEvent::Reply {
        rejected,
        unrequested_local_cancellation: false,
        report_saved: true,
        cleanup,
    }
}

fn observation(own: bool, update: ObservedUpdate) -> InvocationEvent {
    InvocationEvent::Observation { own, well_formed: true, update, retainable: true }
}

fn nothing() -> InvocationAction {
    InvocationAction {
        settle_closed: false,
        fence: false,
        reject_dispatch: false,
        settle_failed: false,
        stop_for: None,
        shut_down: false,
        persist: false,
        publish: false,
    }
}

#[test]
fn a_stop_before_execution_starts_settles_closed() {
    let s = InvocationLoop::start();
    assert!(s.polls_stop() && s.polls_reply() && s.polls_events() && !s.may_leave());
    let (next, action) = invocation_step(s, InvocationEvent::StopNotice { started: false });
    assert!(next.left && next.settled && next.stop_observed);
    assert!(action.settle_closed);
    let (again, quiet) = invocation_step(next, InvocationEvent::ReaderEnd);
    assert_eq!(again, next);
    assert_eq!(quiet, nothing());
}

#[test]
fn a_stop_after_execution_started_keeps_draining() {
    let (s, action) = invocation_step(InvocationLoop::start(), InvocationEvent::StopNotice { started: true });
    assert!(s.stop_observed && !s.settled && !s.left && !action.settle_closed);
    assert!(!s.polls_stop() && s.polls_reply());
}

#[test]
fn a_completed_run_saves_its_observations_and_leaves_once_drained() {
    let s = InvocationLoop::start();
    let (s, action) = invocation_step(s, observation(true, ObservedUpdate::Output));
    assert!(action.persist && !action.fence);
    assert_eq!(s.awaiting, Awaiting::Persistence);
    assert!(!s.polls_events());
    let (s, action) = invocation_step(s, InvocationEvent::Persisted { saved: true });
    assert!(action.publish);
    let (s, _) = invocation_step(s, observation(true, ObservedUpdate::Finished(ExecutionOutcome::Completed)));
    assert_eq!(s.terminal, Some(ExecutionOutcome::Completed));
    let (s, _) = invocation_step(s, InvocationEvent::Persisted { saved: true });
    let (s, action) = invocation_step(s, reply(false, ReplyCleanup::NotReported));
    assert_eq!(action, nothing());
    assert!(s.settled && !s.left && s.may_leave());
    let (s, _) = invocation_step(s, InvocationEvent::ReadyToLeave);
    assert!(s.left);
}

#[test]
fn the_loop_leaves_when_the_settled_stream_ends() {
    let (s, _) = invocation_step(InvocationLoop::start(), reply(false, ReplyCleanup::NotReported));
    assert!(s.settled && !s.may_leave());
    let (s, _) = invocation_step(s, InvocationEvent::ReadyToLeave);
    assert!(!s.left);
    let (s, _) = invocation_step(s, InvocationEvent::ReaderEnd);
    assert!(s.ended && s.left);
}

#[test]
fn output_after_the_terminal_observation_fails_the_run() {
    let (s, _) = invocation_step(
        InvocationLoop::start(),
        observation(true, ObservedUpdate::Finished(ExecutionOutcome::Completed)),
    );
    let (s, _) = invocation_step(s, InvocationEvent::Persisted { saved: true });
    let (after, action) = invocation_step(s, observation(true, ObservedUpdate::Output));
    assert_eq!(action.stop_for, Some(ObservationFault::OutputAfterTerminal));
    let (stopped, _) = invocation_step(after, InvocationEvent::ObservationStopped { confirmed: false });
    assert!(stopped.observation_failed && stopped.ended && stopped.stop_after_settlement);
    let (_, duplicate) =
        invocation_step(s, observation(true, ObservedUpdate::Finished(ExecutionOutcome::Refused)));
    assert_eq!(duplicate.stop_for, Some(ObservationFault::DuplicateTerminal));
    let (_, cancelled) = invocation_step(s, observation(true, ObservedUpdate::PermissionCancelled));
    assert!(cancelled.persist && cancelled.stop_for.is_none());
    let (other, foreign) = invocation_step(s, observation(false, ObservedUpdate::Output));
    assert!(foreign.persist && other.terminal == Some(ExecutionOutcome::Completed));
}

#[test]
fn a_rejected_admission_with_its_own_output_is_fenced_and_stopped() {
    let (s, _) = invocation_step(InvocationLoop::start(), reply(true, ReplyCleanup::NotReported));
    assert!(s.admission_rejected && s.may_leave());
    let (s, action) = invocation_step(s, observation(true, ObservedUpdate::Output));
    assert!(action.fence && action.persist);
    let (s, action) = invocation_step(s, InvocationEvent::Persisted { saved: true });
    assert!(action.reject_dispatch);
    assert_eq!(action.stop_for, Some(ObservationFault::RejectedWithOutput));
    let (s, _) = invocation_step(s, InvocationEvent::ObservationStopped { confirmed: false });
    assert!(s.observation_failed && s.ended && s.left && !s.stop_after_settlement);
}

#[test]
fn a_rejection_after_own_output_is_stopped_at_once() {
    let (s, _) = invocation_step(InvocationLoop::start(), observation(true, ObservedUpdate::Output));
    let (s, _) = invocation_step(s, InvocationEvent::Persisted { saved: true });
    let (_, action) = invocation_step(s, reply(true, ReplyCleanup::Reported { confirmed: true }));
    assert!(action.reject_dispatch);
    assert_eq!(action.stop_for, Some(ObservationFault::RejectedWithOutput));
}

#[test]
fn unconfirmed_cleanup_leaves_after_the_ready_settlement() {
    let (s, action) = invocation_step(InvocationLoop::start(), reply(false, ReplyCleanup::Required));
    assert!(action.shut_down && s.settled);
    assert_eq!(s.awaiting, Awaiting::ReplyCleanup);
    let (unchanged, _) = invocation_step(s, InvocationEvent::ReaderEnd);
    assert_eq!(unchanged, s);
    let (s, _) = invocation_step(s, InvocationEvent::CleanupDone { confirmed: false, failed: true });
    assert!(s.stop_after_settlement && !s.polls_events() && s.may_leave());
    let (s, _) = invocation_step(s, InvocationEvent::ReadyToLeave);
    assert!(s.left);
    let (reported, _) =
        invocation_step(InvocationLoop::start(), reply(false, ReplyCleanup::Reported { confirmed: false }));
    assert!(reported.stop_after_settlement);
}

#[test]
fn an_unrequested_local_cancellation_fails_the_run() {
    let event = InvocationEvent::Reply {
        rejected: false,
        unrequested_local_cancellation: true,
        report_saved: true,
        cleanup: ReplyCleanup::NotReported,
    };
    let (s, action) = invocation_step(InvocationLoop::start(), event);
    assert_eq!(action.stop_for, Some(ObservationFault::UnrequestedLocalCancellation));
    assert!(action.settle_failed && s.settled);
    let (s, _) = invocation_step(s, InvocationEvent::ObservationStopped { confirmed: false });
    assert!(s.left && s.observation_failed && !s.stop_after_settlement);
}

#[test]
fn failed_observation_storage_shuts_the_session_down() {
    let (s, _) = invocation_step(InvocationLoop::start(), observation(true, ObservedUpdate::Output));
    let (s, action) = invocation_step(s, InvocationEvent::Persisted { saved: false });
    assert!(action.shut_down && s.storage_failed);
    assert_eq!(s.awaiting, Awaiting::StorageCleanup);
    let (kept, _) = invocation_step(s, InvocationEvent::CleanupDone { confirmed: true, failed: false });
    assert!(!kept.ended && !kept.observation_failed);
    let (failed, _) = invocation_step(s, InvocationEvent::CleanupDone { confirmed: false, failed: true });
    assert!(failed.ended && failed.observation_failed && failed.stop_after_settlement);
}

#[test]
fn reader_failures_and_bad_observations_stop_the_adapter() {
    let (s, action) = invocation_step(InvocationLoop::start(), InvocationEvent::ReaderFailure);
    assert!(s.ended);
    assert_eq!(action.stop_for, Some(ObservationFault::ReaderFailed));
    let bad = InvocationEvent::Observation {
        own: true,
        well_formed: false,
        update: ObservedUpdate::Output,
        retainable: true,
    };
    let (_, action) = invocation_step(InvocationLoop::start(), bad);
    assert_eq!(action.stop_for, Some(ObservationFault::InvalidObservation));
    let large = InvocationEvent::Observation {
        own: true,
        well_formed: true,
        update: ObservedUpdate::Finished(ExecutionOutcome::Completed),
        retainable: false,
    };
    let (s, action) = invocation_step(InvocationLoop::start(), large);
    assert_eq!(action.stop_for, Some(ObservationFault::RetentionExceeded));
    assert_eq!(s.terminal, Some(ExecutionOutcome::Completed));
}

#[test]
fn faults_the_loop_detects_carry_their_messages() {
    assert_eq!(
        fault_message(ObservationFault::OutputAfterTerminal),
        Some("provider output follows terminal observation")
    );
    assert_eq!(
        fault_message(ObservationFault::RejectedWithOutput),
        Some("provider rejected admission after emitting execution observations")
    );
    assert_eq!(fault_message(ObservationFault::ReaderFailed), None);
}

#[test]
fn a_failed_reply_cleanup_is_kept_beside_the_reply() {
    assert_eq!(reply_settlement(Ok(ExecutionOutcome::Completed), None), Ok(ExecutionOutcome::Completed));
    assert_eq!(
        reply_settlement(Ok(ExecutionOutcome::Completed), Some(AgentError::CleanupUncertain)),
        Err(AgentError::ExecutionObservation {
            error: Box::new(AgentError::CleanupUncertain),
            execution_result: Some(Box::new(Ok(ExecutionOutcome::Completed))),
        })
    );
}

#[test]
fn the_queue_admits_in_order_up_to_its_bound() {
    let mut queue = Vec::new();
    assert_eq!(admit_queued(&mut queue, id("a")), Ok(()));
    assert_eq!(admit_queued(&mut queue, id("b")), Ok(()));
    assert_eq!(admit_queued(&mut queue, id("a")), Err(SchedulingError::Duplicate));
    assert_eq!(queue.len(), 2);
    assert_eq!(take_next(&mut queue), Some(id("a")));
    assert_eq!(take_next(&mut queue), Some(id("b")));
    assert_eq!(take_next(&mut queue), None);
    for k in 0..MAX_QUEUED {
        assert_eq!(admit_queued(&mut queue, id(&format!("q{k}"))), Ok(()));
    }
    assert_eq!(queue.len(), 64);
    assert_eq!(admit_queued(&mut queue, id("late")), Err(SchedulingError::QueueFull));
    assert_eq!(
        admit_submission(&mut queue, id("late")),
        Err(AgentError::Scheduling(SchedulingError::QueueFull))
    );
    assert_eq!(queue.len(), 64);
    assert_eq!(take_next(&mut queue), Some(id("q0")));
}

fn intent(text: &str, tokens: u64, request: &str, mode: SubmissionMode) -> SubmissionIntent {
    SubmissionIntent {
        text: text.into(),
        image_digests: vec!["sha256:aa".to_string()],
        estimated_input_tokens: tokens,
        reserved_output_tokens: 100,
        actor: actor(request),
        mode,
    }
}

#[test]
fn retries_recover_the_saved_intent_and_conflict_otherwise() {
    let saved = intent("hello", 10, "r1", SubmissionMode::Queued);
    let restored: Result<ExecutionOutcome, AgentError> = Ok(ExecutionOutcome::Completed);
    assert_eq!(retry_decision(&saved, &intent("hello", 10, "r1", SubmissionMode::Queued), restored.clone()), restored);
    let conflict = Err(AgentError::SubmissionConflict);
    assert_eq!(retry_decision(&saved, &intent("hello!", 10, "r1", SubmissionMode::Queued), restored.clone()), conflict);
    assert_eq!(retry_decision(&saved, &intent("hello", 11, "r1", SubmissionMode::Queued), restored.clone()), conflict);
    assert_eq!(retry_decision(&saved, &intent("hello", 10, "r2", SubmissionMode::Queued), restored.clone()), conflict);
    assert_eq!(
        retry_decision(&saved, &intent("hello", 10, "r1", SubmissionMode::BoundarySteering), restored.clone()),
        conflict
    );
    let mut other_images = intent("hello", 10, "r1", SubmissionMode::Queued);
    other_images.image_digests.push("sha256:bb".to_string());
    assert_eq!(retry_decision(&saved, &other_images, restored.clone()), conflict);
    other_images.image_digests = vec!["sha256:bb".to_string()];
    assert_eq!(retry_decision(&saved, &other_images, restored.clone()), conflict);
    let unresolved: Result<ExecutionOutcome, AgentError> = Err(AgentError::SubmissionUnresolved);
    assert_eq!(
        retry_decision(&saved, &intent("hello", 10, "r1", SubmissionMode::Queued), unresolved),
        Err(AgentError::SubmissionUnresolved)
    );
}

#[test]
fn an_injected_submission_retried_as_enqueue_conflicts() {
    assert_eq!(
        enqueue_recovery(Ok(RestoredReceipt::Injected(id("target")))),
        Err(AgentError::SubmissionConflict)
    );
    assert_eq!(
        enqueue_recovery(Ok(RestoredReceipt::Settled(Err(AgentError::Closed)))),
        Ok(Err(AgentError::Closed))
    );
    assert_eq!(enqueue_recovery(Err(AgentError::SubmissionUnresolved)), Err(AgentError::SubmissionUnresolved));
}

#[test]
fn refusals_name_the_field_they_refuse() {
    assert_eq!(
        ApprovalModeSnapshot::new("  ", "r1").err(),
        Some(AgentError::InvalidInput("empty approval mode".into()))
    );
    assert_eq!(
        ApprovalModeSnapshot::new("auto", &"x".repeat(257)).err(),
        Some(AgentError::InvalidInput("approval configuration revision exceeds 256 UTF-8 bytes".into()))
    );
    let mode = ApprovalModeSnapshot::new("auto", "r1").unwrap();
    assert_eq!((mode.name(), mode.configuration_revision()), ("auto", "r1"));
    assert_eq!(
        ActionContext::new("user", "", "r").err(),
        Some(AgentError::InvalidInput("empty surface ID".into()))
    );
    assert_eq!(
        CancellationOrigin::Provider.validate_reason(&PermissionCancellationReason::session_closed()),
        Err(AgentError::InvalidInput("cancellation cause contradicts its initiator".into()))
    );
    let prompt = Prompt { execution_id: " ".into(), text: "hello".into(), input_tokens: 1, reserved_output_tokens: 1 };
    assert_eq!(
        validate_prompt_shape(&prompt),
        Err(BindingError::InvalidInput("text and a bounded execution ID are required".into()))
    );
}

#[test]
fn a_panicked_invocation_keeps_its_drain_and_cleanup_failures() {
    assert!(drains_after_panic(true, true));
    assert!(!drains_after_panic(false, true) && !drains_after_panic(true, false));
    let panic = AgentError::Protocol("invocation task panicked".into());
    assert_eq!(invocation_panic_failure(None, Ok(CloseOutcome { forced: false })), panic);
    assert_eq!(
        invocation_panic_failure(Some(AgentError::Closed), Err(AgentError::CleanupUncertain)),
        AgentError::OperationAndCleanupFailure {
            operation_error: Box::new(AgentError::OperationAndCleanupFailure {
                operation_error: Box::new(panic),
                cleanup_error: Box::new(AgentError::Closed),
            }),
            cleanup_error: Box::new(AgentError::CleanupUncertain),
        }
    );
}

#[test]
fn restored_queued_work_is_not_replayed() {
    assert_eq!(
        restore_receipt(Some((InvocationStage::Queued, None)), Some(Ok(ExecutionOutcome::Completed)), false, SubmissionMode::Queued),
        Err(AgentError::SubmissionUnresolved)
    );
    assert_eq!(restore_receipt(None, None, true, SubmissionMode::BoundarySteering), Err(AgentError::SubmissionUnresolved));
}

#[test]
fn a_bounded_error_passes_the_retention_check_and_stays_bounded() {
    let long = AgentError::Protocol("x".repeat(2 * 1024 * 1024));
    assert!(long.validate_retained_size().is_err());
    let once = long.bounded();
    assert!(once.validate_retained_size().is_ok());
    assert_eq!(once.clone().bounded(), once);
}

#[test]
fn replacing_cleanup_evidence_keeps_the_audit_and_operation_failure() {
    let audit_error = AgentError::Protocol("a".repeat(2 * 1024 * 1024));
    let report = CleanupReport::new(ResourceCleanup::Unconfirmed(AgentError::CleanupUncertain), Err(audit_error))
        .with_operation_failure(Some(AgentError::Closed));
    let audit = report.audit().clone();
    let replaced = report.with_resources(ResourceCleanup::Confirmed(CloseOutcome { forced: false }));
    assert_eq!(replaced.audit(), &audit);
    assert_eq!(replaced.operation_failure(), Some(&AgentError::Closed));
    assert!(replaced.is_confirmed());
    assert_eq!(replaced.resources(), &ResourceCleanup::Confirmed(CloseOutcome { forced: false }));
}

#[test]
fn spare_allocation_counts_toward_the_retention_bound() {
    let spare = AgentError::Protocol(String::with_capacity(1024 * 1024));
    assert_eq!(
        spare.validate_retained_size(),
        Err(StorageError::Corrupt("retained error exceeds 1 MiB, 128 nodes, or depth 32".into()))
    );
    let bounded = spare.bounded();
    assert_eq!(bounded, AgentError::Protocol(String::new()));
    assert!(bounded.validate_retained_size().is_ok());
    assert!(AgentError::Protocol("small".into()).validate_retained_size().is_ok());
}

#[test]
fn withdrawal_removes_a_waiting_input_once() {
    let mut queue = Vec::new();
    for name in ["a", "b", "c"] {
        admit_queued(&mut queue, id(name)).unwrap();
    }
    assert_eq!(withdraw_queued(&mut queue, &id("b")), QueueRemoval::Removed);
    assert_eq!(queue, vec![id("a"), id("c")]);
    assert_eq!(withdraw_queued(&mut queue, &id("b")), QueueRemoval::NotPending);
    assert_eq!(take_next(&mut queue), Some(id("a")));
    assert_eq!(withdraw_queued(&mut queue, &id("a")), QueueRemoval::NotPending);
    assert_eq!(queue, vec![id("c")]);
}

#[test]
fn a_withdrawal_answers_removed_unless_its_evidence_failed() {
    assert_eq!(withdrawal_receipt(None), (Ok(QueueRemoval::Removed), Err(AgentError::Closed)));
    let failure = AgentError::Storage(StorageError::Busy);
    assert_eq!(withdrawal_receipt(Some(failure.clone())), (Err(failure.clone()), Err(failure)));
}
