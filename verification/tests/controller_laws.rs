use nessa_sdk::agent_execution::agents::AgentError;
use nessa_sdk::agent_execution::executions::{
    ExecutionAuditRecord, ExecutionController, ExecutionUpdate,
};
use nessa_sdk::agent_execution::permissions::{
    ActionContext, ApprovalAttribution, ApprovalBasis, CancellationOrigin, PermissionAnswer,
    PermissionCancellationRequest,
};
use nessa_sdk::agent_execution::tools::ToolReviewInput;
use nessa_sdk::domain::executions::{ExecutionOutcome, MessageChunk};
use nessa_sdk::domain::ids::{
    ExecutionId, ExecutionSessionId, PermissionId, PermissionOptionId, QuestionId, ToolCallId,
};
use nessa_sdk::domain::permissions::{
    CustomPermissionCancellationReason, PermissionCancellationReason, PermissionDecision,
    PermissionEffect, PermissionOfferPolicy, PermissionOption, PermissionOptions, PermissionScope,
    PermissionStateView,
};
use nessa_sdk::domain::questions::{AgentQuestion, QuestionChoice};
use nessa_sdk::domain::tools::ToolCallUpdate;

fn started() -> ExecutionController {
    let mut controller = ExecutionController::new(ExecutionSessionId::new("session").unwrap());
    controller.begin_execution(execution()).unwrap();
    controller
}

fn execution() -> ExecutionId {
    ExecutionId::new("execution").unwrap()
}

fn options() -> PermissionOptions {
    PermissionOptions::new(
        vec![PermissionOption::new(
            PermissionOptionId::new("allow").unwrap(),
            "Allow",
            PermissionDecision::new(PermissionEffect::Allow, PermissionScope::request()),
        )
        .unwrap()],
        &PermissionOfferPolicy::once_only(),
    )
    .unwrap()
}

fn input(name: &str) -> ToolReviewInput {
    ToolReviewInput {
        name: name.into(),
        arguments_json: "{}".into(),
    }
}

fn review(controller: &mut ExecutionController, id: &str, name: &str) {
    controller
        .request_permission(
            &execution(),
            PermissionId::new(id).unwrap(),
            ToolCallUpdate::new(ToolCallId::new("tool").unwrap(), None, None, None, None, None),
            input(name),
            options(),
        )
        .unwrap();
}

fn custom() -> PermissionCancellationReason {
    PermissionCancellationReason::custom(
        CustomPermissionCancellationReason::new("host", "withdrawn by host").unwrap(),
    )
}

fn actor() -> ActionContext {
    ActionContext::new("user", "cli", "cancel").unwrap()
}

#[test]
fn settled_identity_cannot_begin_again() {
    let mut controller = started();
    controller
        .finish_execution(&execution(), Ok(ExecutionOutcome::Completed))
        .unwrap();
    assert!(matches!(
        controller.begin_execution(execution()),
        Err(AgentError::InvalidInput(_))
    ));
    assert!(controller.active_execution_id().is_none());
}

#[test]
fn settlement_reports_finish_then_each_pending_review_with_its_input() {
    let mut controller = started();
    review(&mut controller, "a", "Read");
    review(&mut controller, "b", "Write");
    let records = controller
        .finish_execution(&execution(), Err(PermissionCancellationReason::execution_failed()))
        .unwrap();
    assert_eq!(records.len(), 3);
    assert!(matches!(&records[0], ExecutionAuditRecord::Finished(f) if f.result() == &Err(PermissionCancellationReason::execution_failed())));
    for (record, (id, name)) in records[1..].iter().zip([("a", "Read"), ("b", "Write")]) {
        let ExecutionAuditRecord::Cancelled(c) = record else {
            panic!("expected cancellation");
        };
        assert_eq!(c.request().id().as_str(), id);
        assert_eq!(c.input(), &input(name));
        assert_eq!(c.origin(), &CancellationOrigin::Runtime);
        assert!(matches!(c.request().state(), PermissionStateView::Cancelled { reason } if *reason == PermissionCancellationReason::execution_failed()));
    }
    assert_eq!(controller.retained_review_bytes(), 0);
    assert_eq!(controller.retained_tool_bytes(), 0);
    assert_eq!(controller.session().permission_count(), 0);
}

#[test]
fn a_second_close_changes_nothing_and_reports_nothing() {
    let mut controller = started();
    review(&mut controller, "a", "Read");
    let first = controller
        .close(PermissionCancellationReason::session_closed(), CancellationOrigin::Runtime)
        .unwrap();
    assert_eq!(first.len(), 2);
    assert!(matches!(&first[0], ExecutionAuditRecord::SessionClosed(_)));
    let second = controller
        .close(PermissionCancellationReason::session_failed(), CancellationOrigin::Runtime)
        .unwrap();
    assert!(second.is_empty());
    assert!(controller.is_closed());
    assert_eq!(controller.retained_review_bytes(), 0);
}

#[test]
fn a_resolved_review_cannot_be_answered_or_cancelled_again() {
    let mut controller = started();
    review(&mut controller, "a", "Read");
    let answer = PermissionAnswer {
        attribution: ApprovalAttribution::new(actor(), ApprovalBasis::Explicit),
        execution_id: execution(),
        id: PermissionId::new("a").unwrap(),
        option_id: PermissionOptionId::new("allow").unwrap(),
    };
    let resolution = controller.answer_permission(answer.clone()).unwrap();
    assert_eq!(resolution.input(), &input("Read"));
    assert_eq!(controller.answer_permission(answer), Err(AgentError::StalePermission));
    assert_eq!(
        controller
            .cancel_permission(
                &execution(),
                &PermissionId::new("a").unwrap(),
                PermissionCancellationReason::provider_withdrawal(),
                CancellationOrigin::Provider,
            )
            .unwrap(),
        None
    );
}

#[test]
fn answers_naming_an_unoffered_option_are_stale_and_keep_the_review() {
    let mut controller = started();
    review(&mut controller, "a", "Read");
    let bytes = controller.retained_review_bytes();
    let answer = PermissionAnswer {
        attribution: ApprovalAttribution::new(actor(), ApprovalBasis::Explicit),
        execution_id: execution(),
        id: PermissionId::new("a").unwrap(),
        option_id: PermissionOptionId::new("deny").unwrap(),
    };
    assert_eq!(controller.answer_permission(answer), Err(AgentError::StalePermission));
    assert_eq!(controller.retained_review_bytes(), bytes);
}

#[test]
fn explicit_review_cancellation_requires_a_custom_cause_and_a_live_review() {
    let mut controller = started();
    review(&mut controller, "a", "Read");
    let request = |reason: PermissionCancellationReason, id: &str| PermissionCancellationRequest {
        execution_id: execution(),
        id: PermissionId::new(id).unwrap(),
        reason,
        actor: actor(),
    };
    assert!(matches!(
        controller.cancel_review(request(PermissionCancellationReason::session_closed(), "a")),
        Err(AgentError::InvalidInput(_))
    ));
    assert_eq!(
        controller.cancel_review(request(custom(), "missing")).err(),
        Some(AgentError::StalePermission)
    );
    let cancelled = controller.cancel_review(request(custom(), "a")).unwrap();
    assert_eq!(cancelled.origin(), &CancellationOrigin::Client(actor()));
    assert_eq!(cancelled.input(), &input("Read"));
    controller
        .close(PermissionCancellationReason::session_closed(), CancellationOrigin::Runtime)
        .unwrap();
    assert_eq!(
        controller.cancel_review(request(custom(), "a")).err(),
        Some(AgentError::Closed)
    );
}

#[test]
fn events_are_refused_for_oversized_fragments_or_inactive_targets() {
    let controller = started();
    let big = MessageChunk::Text("x".repeat(4 * 1024 * 1024 + 1));
    assert!(matches!(
        controller.message_event(&execution(), big),
        Err(AgentError::Protocol(_))
    ));
    let other = ExecutionId::new("other").unwrap();
    assert!(matches!(
        controller.message_event(&other, MessageChunk::Thought("t".into())),
        Err(AgentError::InvalidInput(_))
    ));
    assert!(matches!(
        controller.finished_event(&other, ExecutionOutcome::Completed),
        Err(AgentError::InvalidInput(_))
    ));
    let event = controller
        .finished_event(&execution(), ExecutionOutcome::Refused)
        .unwrap();
    assert_eq!(event.update(), &ExecutionUpdate::Finished(ExecutionOutcome::Refused));
}

#[test]
fn events_without_an_active_execution_are_out_of_protocol() {
    let controller = ExecutionController::new(ExecutionSessionId::new("session").unwrap());
    assert!(matches!(
        controller.message_event(&execution(), MessageChunk::Thought("t".into())),
        Err(AgentError::Protocol(_))
    ));
    assert!(matches!(
        controller.finished_event(&execution(), ExecutionOutcome::Completed),
        Err(AgentError::Protocol(_))
    ));
}

#[test]
fn questions_are_events_that_admit_nothing() {
    let mut controller = started();
    let question = AgentQuestion {
        prompt: "Which file?".into(),
        choices: vec![QuestionChoice { label: "a.rs".into() }],
        multiple: false,
    };
    let asked = controller
        .ask_question(&execution(), QuestionId::new("q1").unwrap(), question)
        .unwrap();
    assert!(matches!(asked.update(), ExecutionUpdate::QuestionAsked { id, .. } if id.as_str() == "q1"));
    assert_eq!(controller.session().permission_count(), 0);
    let long_id = QuestionId::new(&"q".repeat(257)).unwrap();
    assert!(matches!(
        controller.close_question(&execution(), long_id),
        Err(AgentError::InvalidInput(_))
    ));
    assert!(controller
        .close_question(&execution(), QuestionId::new("q1").unwrap())
        .is_ok());
}

#[test]
fn lifecycle_withdrawal_cancels_every_pending_review_once() {
    let mut controller = started();
    review(&mut controller, "a", "Read");
    review(&mut controller, "b", "Write");
    let cancelled = controller
        .cancel_permissions(
            &execution(),
            PermissionCancellationReason::deadline_exceeded(),
            CancellationOrigin::Runtime,
        )
        .unwrap();
    assert_eq!(cancelled.len(), 2);
    assert_eq!(controller.retained_review_bytes(), 0);
    let again = controller
        .cancel_permissions(
            &execution(),
            PermissionCancellationReason::deadline_exceeded(),
            CancellationOrigin::Runtime,
        )
        .unwrap();
    assert!(again.is_empty());
    assert!(matches!(
        controller.cancel_permissions(
            &execution(),
            PermissionCancellationReason::provider_withdrawal(),
            CancellationOrigin::Runtime
        ),
        Err(AgentError::InvalidInput(_))
    ));
}
