use nessa_sdk::agent_execution::agents::attachment::AttachmentFailureCode;
use nessa_sdk::agent_execution::agents::settlement::{
    attachment_failure_code, close_cause, close_result, contradicts, dispatch_order, drained_receipt, drained_stop,
    observed_result, panic_failure, restore_receipt, RestoredReceipt, queue_stop, retained_failure, settle_after_panic, settle_run, settling_stop,
    steering_route, steering_settlement, supervisor_failure, terminal_violation, with_cleanup_failure, with_storage_failure,
    SteeringRoute, StoppedInput,
};
use nessa_sdk::agent_execution::agents::AgentError;
use nessa_sdk::agent_execution::executions::ExecutionUpdate;
use nessa_sdk::agent_execution::permissions::ActionContext;
use nessa_sdk::agent_execution::providers::CloseOutcome;
use nessa_sdk::agent_execution::sessions::storage::InvocationCancellationEvent;
use nessa_sdk::agent_execution::sessions::StorageError;
use nessa_sdk::domain::executions::ExecutionOutcome;
use nessa_sdk::domain::ids::ExecutionId;
use nessa_sdk::domain::scheduling::{InvocationKind, InvocationStage, SchedulingCause, SubmissionMode};

fn actor() -> ActionContext {
    ActionContext::new("principal", "surface", "request").unwrap()
}

fn id(text: &str) -> ExecutionId {
    ExecutionId::new(text).unwrap()
}

fn closed_by_caller() -> InvocationCancellationEvent {
    InvocationCancellationEvent { cause: SchedulingCause::SessionClosed, actor: Some(actor()) }
}

#[test]
fn storage_failure_keeps_the_known_result() {
    let kept = with_storage_failure(Ok(ExecutionOutcome::Completed), Some(StorageError::Busy));
    assert_eq!(
        kept,
        Err(AgentError::StorageAfterExecution {
            error: StorageError::Busy,
            execution_result: Box::new(Ok(ExecutionOutcome::Completed)),
        })
    );
    assert_eq!(with_storage_failure(Ok(ExecutionOutcome::Refused), None), Ok(ExecutionOutcome::Refused));
}

#[test]
fn cleanup_failure_pairs_with_the_operation() {
    assert_eq!(with_cleanup_failure(AgentError::Busy, Ok(CloseOutcome { forced: false })), AgentError::Busy);
    assert_eq!(
        with_cleanup_failure(AgentError::Busy, Err(AgentError::CleanupUncertain)),
        AgentError::OperationAndCleanupFailure {
            operation_error: Box::new(AgentError::Busy),
            cleanup_error: Box::new(AgentError::CleanupUncertain),
        }
    );
}

#[test]
fn attachment_failures_are_classified() {
    assert_eq!(attachment_failure_code(&AgentError::AuditFailure), AttachmentFailureCode::Audit);
    assert_eq!(attachment_failure_code(&AgentError::Storage(StorageError::Busy)), AttachmentFailureCode::Storage);
    assert_eq!(attachment_failure_code(&AgentError::CleanupUncertain), AttachmentFailureCode::Cleanup);
    assert_eq!(attachment_failure_code(&AgentError::Transport("down".into())), AttachmentFailureCode::Provider);
}

#[test]
fn a_run_settles_with_its_owners_stop_only_when_it_did_not_finish() {
    let stop = Some(closed_by_caller());
    assert_eq!(settling_stop(true, false, &Ok(ExecutionOutcome::Completed), stop.clone()), None);
    assert_eq!(settling_stop(false, false, &Ok(ExecutionOutcome::Completed), stop.clone()), stop.clone());
    assert_eq!(settling_stop(true, true, &Ok(ExecutionOutcome::Completed), stop.clone()), stop.clone());
    assert_eq!(settling_stop(true, false, &Err(AgentError::Closed), stop.clone()), stop);
}

#[test]
fn run_settlement_evidence_follows_the_stop_dispatch_and_history() {
    assert_eq!(
        settle_run(&Some(closed_by_caller()), false, Ok(SchedulingCause::Finished)),
        Ok((InvocationStage::Cancelled, SchedulingCause::SessionClosed, Some(actor())))
    );
    assert_eq!(
        settle_run(&None, true, Ok(SchedulingCause::Finished)),
        Ok((InvocationStage::Settled, SchedulingCause::DispatchFailed, None))
    );
    assert_eq!(
        settle_run(&None, false, Ok(SchedulingCause::Finished)),
        Ok((InvocationStage::Settled, SchedulingCause::Finished, None))
    );
    assert_eq!(settle_run(&None, false, Err(StorageError::Busy)), Err(StorageError::Busy));
    assert_eq!(queue_stop(&None), (SchedulingCause::RunnerStopped, None));
    assert_eq!(queue_stop(&Some(closed_by_caller())), (SchedulingCause::SessionClosed, Some(actor())));
}

#[test]
fn a_drained_input_keeps_its_first_stop() {
    assert_eq!(close_cause(&Some(actor())), SchedulingCause::SessionClosed);
    assert_eq!(close_cause(&None), SchedulingCause::RunnerStopped);
    assert_eq!(
        drained_stop(&Some(closed_by_caller()), SchedulingCause::RunnerStopped, &None),
        (SchedulingCause::SessionClosed, Some(actor()))
    );
    assert_eq!(drained_stop(&None, SchedulingCause::Withdrawn, &Some(actor())), (SchedulingCause::Withdrawn, Some(actor())));
}

#[test]
fn drained_receipts_report_closed_or_the_storage_failure() {
    assert_eq!(drained_receipt(false, Ok(())), Err(AgentError::Closed));
    assert_eq!(drained_receipt(false, Err(StorageError::Busy)), Err(AgentError::Storage(StorageError::Busy)));
    assert_eq!(
        drained_receipt(true, Ok(())),
        Err(AgentError::Storage(StorageError::Io("pending cancellation persistence was interrupted".into())))
    );
    let receipt = Err(AgentError::Storage(StorageError::IdentityMismatch));
    assert_eq!(retained_failure(None, &receipt), Some(StorageError::IdentityMismatch));
    assert_eq!(retained_failure(Some(StorageError::Busy), &receipt), Some(StorageError::Busy));
    assert_eq!(retained_failure(None, &Err(AgentError::Closed)), None);
}

#[test]
fn panic_recovery_settles_queued_and_running_inputs_only() {
    assert_eq!(
        settle_after_panic(InvocationStage::Queued, Ok(SchedulingCause::Finished)),
        Some(Ok(SchedulingCause::DispatchFailed))
    );
    assert_eq!(
        settle_after_panic(InvocationStage::Running, Err(StorageError::Busy)),
        Some(Err(StorageError::Busy))
    );
    assert_eq!(settle_after_panic(InvocationStage::Settled, Ok(SchedulingCause::Finished)), None);
    assert_eq!(
        panic_failure("scheduling task panicked", Ok(CloseOutcome { forced: true })),
        AgentError::Protocol("scheduling task panicked".into())
    );
    assert_eq!(
        panic_failure("scheduling task panicked", Err(AgentError::CleanupUncertain)),
        AgentError::OperationAndCleanupFailure {
            operation_error: Box::new(AgentError::Protocol("scheduling task panicked".into())),
            cleanup_error: Box::new(AgentError::CleanupUncertain),
        }
    );
}

#[test]
fn steering_routes_follow_admission_and_the_captured_target() {
    let target = Some(id("running"));
    assert_eq!(steering_route(false, false, &target, &target), SteeringRoute::Refused);
    assert_eq!(steering_route(true, true, &target, &target), SteeringRoute::Refused);
    assert_eq!(steering_route(true, false, &None, &target), SteeringRoute::Queue);
    assert_eq!(steering_route(true, false, &Some(id("other")), &target), SteeringRoute::Queue);
    assert_eq!(steering_route(true, false, &None, &None), SteeringRoute::Queue);
    assert_eq!(steering_route(true, false, &target, &target), SteeringRoute::Native(id("running")));
    assert_eq!(
        steering_settlement(&None),
        (InvocationStage::Settled, SchedulingCause::DispatchFailed, None)
    );
    assert_eq!(
        steering_settlement(&Some(closed_by_caller())),
        (InvocationStage::Cancelled, SchedulingCause::SessionClosed, Some(actor()))
    );
}

#[test]
fn close_keeps_cleanup_beside_failed_queue_evidence() {
    let cleanup: Result<CloseOutcome, AgentError> = Ok(CloseOutcome { forced: false });
    assert_eq!(close_result(Ok(()), cleanup.clone()), cleanup);
    assert_eq!(
        close_result(Err(AgentError::Storage(StorageError::Busy)), cleanup.clone()),
        Err(AgentError::StorageDuringClose { error: StorageError::Busy, cleanup_result: Box::new(cleanup.clone()) })
    );
    assert_eq!(close_result(Err(AgentError::Closed), cleanup), Err(AgentError::Closed));
}

#[test]
fn only_cancellation_evidence_may_follow_a_terminal_observation() {
    let finished = ExecutionUpdate::Finished(ExecutionOutcome::Completed);
    assert_eq!(terminal_violation(None, &finished), None);
    assert_eq!(
        terminal_violation(Some(ExecutionOutcome::Completed), &finished),
        Some("duplicate terminal observation")
    );
    assert!(contradicts(Some(ExecutionOutcome::Completed), Some(&Ok(ExecutionOutcome::Refused))));
    assert!(contradicts(Some(ExecutionOutcome::Completed), Some(&Err(AgentError::Closed))));
    assert!(!contradicts(Some(ExecutionOutcome::Completed), Some(&Ok(ExecutionOutcome::Completed))));
    assert!(!contradicts(None, Some(&Ok(ExecutionOutcome::Completed))));
}

#[test]
fn an_observation_failure_keeps_the_known_settlement() {
    assert_eq!(observed_result(None, Some(Ok(ExecutionOutcome::Completed))), Ok(ExecutionOutcome::Completed));
    assert_eq!(
        observed_result(Some(AgentError::Deadline), Some(Ok(ExecutionOutcome::Completed))),
        Err(AgentError::ExecutionObservation {
            error: Box::new(AgentError::Deadline),
            execution_result: Some(Box::new(Ok(ExecutionOutcome::Completed))),
        })
    );
    assert_eq!(
        observed_result(Some(AgentError::Deadline), None),
        Err(AgentError::ExecutionObservation { error: Box::new(AgentError::Deadline), execution_result: None })
    );
}

#[test]
fn stopped_inputs_are_ordered_steering_first_then_by_admission() {
    let items = vec![
        StoppedInput { id: id("late"), kind: InvocationKind::Queued, index: 9 },
        StoppedInput { id: id("steer-b"), kind: InvocationKind::Steering, index: 7 },
        StoppedInput { id: id("early"), kind: InvocationKind::Queued, index: 2 },
        StoppedInput { id: id("steer-a"), kind: InvocationKind::Steering, index: 3 },
    ];
    let order: Vec<String> = dispatch_order(&items).iter().map(|x| x.as_str().to_string()).collect();
    assert_eq!(order, vec!["steer-a", "steer-b", "early", "late"]);
    assert!(dispatch_order(&Vec::new()).is_empty());
}

#[test]
fn a_saved_submission_restores_its_receipt_without_replay() {
    assert_eq!(
        restore_receipt(Some((InvocationStage::Injected, Some(id("target")))), None, false, SubmissionMode::NativeSteering),
        Ok(RestoredReceipt::Injected(id("target")))
    );
    assert_eq!(
        restore_receipt(Some((InvocationStage::Injected, None)), None, false, SubmissionMode::NativeSteering),
        Err(AgentError::SubmissionUnresolved)
    );
    assert_eq!(
        restore_receipt(Some((InvocationStage::Cancelled, None)), None, false, SubmissionMode::Queued),
        Ok(RestoredReceipt::Settled(Err(AgentError::Closed)))
    );
    assert_eq!(
        restore_receipt(Some((InvocationStage::Settled, None)), None, true, SubmissionMode::Queued),
        Ok(RestoredReceipt::Settled(Err(AgentError::SubmissionUnresolved)))
    );
    assert_eq!(
        restore_receipt(
            Some((InvocationStage::Running, None)),
            Some(Ok(ExecutionOutcome::Completed)),
            true,
            SubmissionMode::Queued
        ),
        Ok(RestoredReceipt::Settled(Ok(ExecutionOutcome::Completed)))
    );
    assert_eq!(
        restore_receipt(Some((InvocationStage::Running, None)), None, true, SubmissionMode::Queued),
        Err(AgentError::SubmissionUnresolved)
    );
    assert_eq!(
        restore_receipt(Some((InvocationStage::Queued, None)), None, false, SubmissionMode::Queued),
        Err(AgentError::SubmissionUnresolved)
    );
    assert_eq!(
        restore_receipt(
            Some((InvocationStage::Settled, None)),
            Some(Err(AgentError::Busy)),
            false,
            SubmissionMode::NativeSteering
        ),
        Err(AgentError::Busy)
    );
}

#[test]
fn a_supervisor_failure_keeps_the_known_result() {
    let panicked = AgentError::Protocol("invocation task panicked".into());
    assert_eq!(supervisor_failure(panicked.clone(), None), Err(panicked.clone()));
    assert_eq!(
        supervisor_failure(panicked.clone(), Some(Ok(ExecutionOutcome::Completed))),
        Err(AgentError::ExecutionObservation {
            error: Box::new(panicked),
            execution_result: Some(Box::new(Ok(ExecutionOutcome::Completed))),
        })
    );
}
