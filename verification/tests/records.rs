use nessa_sdk::agent_binding::contracts::{validate_prompt_shape, BindingError, Prompt};
use nessa_sdk::agent_execution::agents::scheduling::scheduling_event;
use nessa_sdk::agent_execution::agents::AgentError;
use nessa_sdk::agent_execution::executions::limits::ObservationUsage;
use nessa_sdk::agent_execution::executions::{ExecutionEvent, ExecutionUpdate};
use nessa_sdk::agent_execution::permissions::ActionContext;
use nessa_sdk::agent_execution::sessions::storage::{
    InvocationCancellationEvent, InvocationSchedulingEvent,
};
use nessa_sdk::agent_execution::sessions::StorageError;
use nessa_sdk::domain::executions::{ExecutionOutcome, MessageChunk};
use nessa_sdk::domain::ids::ExecutionId;
use nessa_sdk::domain::scheduling::{
    InvocationKind, InvocationStage, SchedulingCause, SchedulingInitiator,
    SchedulingTransitionError,
};

fn actor() -> Option<ActionContext> {
    Some(ActionContext::new("user", "cli", "request").unwrap())
}

#[test]
fn invocation_stops_need_a_matching_initiator() {
    let withdrawn = InvocationCancellationEvent {
        cause: SchedulingCause::Withdrawn,
        actor: actor(),
    };
    let cancellation = withdrawn.cancellation().unwrap();
    assert_eq!(cancellation.initiator(), SchedulingInitiator::Caller);
    let automatic_withdrawal = InvocationCancellationEvent {
        cause: SchedulingCause::Withdrawn,
        actor: None,
    };
    assert!(matches!(
        automatic_withdrawal.cancellation(),
        Err(StorageError::Corrupt(_))
    ));
    let stopped = InvocationCancellationEvent {
        cause: SchedulingCause::RunnerStopped,
        actor: None,
    };
    assert!(stopped.cancellation().is_ok());
}

#[test]
fn scheduling_history_must_chain_from_submission() {
    let submitted = scheduling_event(
        InvocationKind::Queued,
        None,
        None,
        InvocationStage::Queued,
        SchedulingCause::Submitted,
        actor(),
    );
    let dispatched = scheduling_event(
        InvocationKind::Queued,
        None,
        Some(InvocationStage::Queued),
        InvocationStage::Running,
        SchedulingCause::Dispatched,
        None,
    );
    let finished = scheduling_event(
        InvocationKind::Queued,
        None,
        Some(InvocationStage::Running),
        InvocationStage::Settled,
        SchedulingCause::Finished,
        None,
    );
    assert!(submitted.transition().is_ok());
    assert_eq!(
        InvocationSchedulingEvent::validate_history(&[
            submitted.clone(),
            dispatched.clone(),
            finished.clone()
        ]),
        Ok(())
    );
    assert_eq!(InvocationSchedulingEvent::validate_history(&[]), Ok(()));
    assert_eq!(
        InvocationSchedulingEvent::validate_history(&[submitted.clone(), finished.clone()]),
        Err(SchedulingTransitionError::BrokenHistory)
    );
    let automatic_submission = InvocationSchedulingEvent {
        actor: None,
        ..submitted.clone()
    };
    assert_eq!(
        automatic_submission.transition(),
        Err(SchedulingTransitionError::IllegalTransition)
    );
    let targeted_queue = InvocationSchedulingEvent {
        target: Some(ExecutionId::new("other").unwrap()),
        ..submitted
    };
    assert_eq!(
        targeted_queue.transition(),
        Err(SchedulingTransitionError::TargetMismatch)
    );
}

#[test]
fn observation_usage_counts_retained_bytes_and_events() {
    let execution = ExecutionId::new("execution").unwrap();
    let event = ExecutionEvent::new(
        execution.clone(),
        ExecutionUpdate::Message(MessageChunk::Text("hello".into())),
    );
    let one = ObservationUsage::empty().with_event(&event).unwrap();
    let events = vec![
        event.clone(),
        ExecutionEvent::new(execution, ExecutionUpdate::Finished(ExecutionOutcome::Completed)),
    ];
    assert!(ObservationUsage::from_events(&events).is_ok());
    assert!(one.with_event(&event).is_ok());
    let big = ExecutionEvent::new(
        ExecutionId::new("e").unwrap(),
        ExecutionUpdate::Message(MessageChunk::Text("x".repeat(4 * 1024 * 1024))),
    );
    let many = (0..33).map(|_| big.clone()).collect::<Vec<_>>();
    assert_eq!(
        ObservationUsage::from_events(&many).err(),
        Some(AgentError::OutputRetentionLimit)
    );
}

#[test]
fn prompts_need_text_and_a_bounded_identity() {
    let prompt = |id: &str, text: &str| Prompt {
        execution_id: id.into(),
        text: text.into(),
        input_tokens: 10,
        reserved_output_tokens: 10,
    };
    assert!(validate_prompt_shape(&prompt("e1", "hello")).is_ok());
    assert!(matches!(
        validate_prompt_shape(&prompt("e1", "  \n")),
        Err(BindingError::InvalidInput(_))
    ));
    assert!(validate_prompt_shape(&prompt(" ", "hello")).is_err());
    assert!(validate_prompt_shape(&prompt(&"i".repeat(256), "hello")).is_ok());
    assert!(validate_prompt_shape(&prompt(&"i".repeat(257), "hello")).is_err());
}
