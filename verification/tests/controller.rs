use nessa_sdk::agent_execution::agents::AgentError;
use nessa_sdk::agent_execution::executions::controller::{
    MAX_EXECUTION_PERMISSIONS, MAX_RETAINED_BYTES,
};
use nessa_sdk::agent_execution::executions::{
    ExecutionController, ExecutionEvent, ExecutionUpdate, SessionClosureRecord,
};
use nessa_sdk::agent_execution::permissions::{
    ActionContext, ApprovalAttribution, ApprovalBasis, CancellationOrigin, PermissionAnswer,
    PermissionCancellation,
};
use nessa_sdk::agent_execution::tools::ToolReviewInput;
use nessa_sdk::domain::executions::ExecutionOutcome;
use nessa_sdk::domain::ids::{
    ExecutionId, ExecutionSessionId, PermissionId, PermissionOptionId, ToolCallId,
};
use nessa_sdk::domain::permissions::{
    CustomPermissionCancellationReason, PermissionCancellationReason,
    PermissionCancellationReasonView, PermissionDecision, PermissionEffect, PermissionOfferPolicy,
    PermissionOption, PermissionOptions, PermissionRequest, PermissionScope, PermissionStateView,
};
use nessa_sdk::domain::session::ExecutionSession;
use nessa_sdk::domain::tools::ToolCallUpdate;

fn controller() -> ExecutionController {
    let mut controller = ExecutionController::new(ExecutionSessionId::new("session").unwrap());
    controller
        .begin_execution(ExecutionId::new("execution").unwrap())
        .unwrap();
    controller
}

fn tool(title: Option<String>) -> ToolCallUpdate {
    ToolCallUpdate::new(ToolCallId::new("tool").unwrap(), title, None, None, None, None)
}

fn options(label: String) -> PermissionOptions {
    PermissionOptions::new(
        vec![PermissionOption::new(
            PermissionOptionId::new("allow").unwrap(),
            &label,
            PermissionDecision::new(PermissionEffect::Allow, PermissionScope::request()),
        )
        .unwrap()],
        &PermissionOfferPolicy::once_only(),
    )
    .unwrap()
}

fn input() -> ToolReviewInput {
    ToolReviewInput {
        name: "Write".into(),
        arguments_json: "reviewed input".into(),
    }
}

fn request(
    controller: &mut ExecutionController,
    id: &str,
    title: &str,
) -> Result<ExecutionEvent, AgentError> {
    let execution = controller.active_execution_id().unwrap().clone();
    controller.request_permission(
        &execution,
        PermissionId::new(id).unwrap(),
        tool(Some(title.into())),
        input(),
        options("Allow".into()),
    )
}

fn answer(id: &str) -> PermissionAnswer {
    PermissionAnswer {
        execution_id: ExecutionId::new("execution").unwrap(),
        id: PermissionId::new(id).unwrap(),
        option_id: PermissionOptionId::new("allow").unwrap(),
        attribution: ApprovalAttribution::new(
            ActionContext::new("actor", "surface", "answer").unwrap(),
            ApprovalBasis::Explicit,
        ),
    }
}

fn tool_title(controller: &ExecutionController, id: &ToolCallId) -> Option<String> {
    controller
        .session()
        .tool(id)
        .unwrap()
        .observation()
        .title()
        .clone()
}

#[test]
fn cause_origin_validation_preserves_pending_state_and_retained_budgets() {
    let reasons = [
        (PermissionCancellationReason::provider_withdrawal(), [false, true, false]),
        (PermissionCancellationReason::session_closed(), [true, false, true]),
        (PermissionCancellationReason::session_failed(), [false, false, true]),
        (PermissionCancellationReason::execution_finished(), [false, false, true]),
        (PermissionCancellationReason::execution_failed(), [false, false, true]),
        (PermissionCancellationReason::deadline_exceeded(), [false, false, true]),
        (PermissionCancellationReason::event_consumer_dropped(), [false, false, true]),
        (PermissionCancellationReason::session_handles_dropped(), [false, false, true]),
        (
            PermissionCancellationReason::custom(
                CustomPermissionCancellationReason::new("guard", "guard withdrew review").unwrap(),
            ),
            [true, false, false],
        ),
    ];
    let origins = [
        CancellationOrigin::Client(ActionContext::new("guard", "host", "withdraw").unwrap()),
        CancellationOrigin::Provider,
        CancellationOrigin::Runtime,
    ];
    for (reason, allowed) in reasons {
        for (origin, allowed) in origins.iter().zip(allowed) {
            for operation in 0..3 {
                let mut controller = controller();
                request(&mut controller, "permission", "original").unwrap();
                let bytes = controller.retained_review_bytes();
                let result = match operation {
                    0 => controller
                        .cancel_permission(
                            &ExecutionId::new("execution").unwrap(),
                            &PermissionId::new("permission").unwrap(),
                            reason.clone(),
                            origin.clone(),
                        )
                        .map(|record| assert!(record.is_some())),
                    1 => controller
                        .cancel_permissions(
                            &ExecutionId::new("execution").unwrap(),
                            reason.clone(),
                            origin.clone(),
                        )
                        .map(|records| assert_eq!(records.len(), 1)),
                    _ => controller
                        .close_execution(
                            &ExecutionId::new("execution").unwrap(),
                            reason.clone(),
                            origin.clone(),
                        )
                        .map(|records| assert_eq!(records.len(), 2)),
                };
                let closure_cause = !matches!(
                    reason.view(),
                    PermissionCancellationReasonView::ProviderWithdrawal
                        | PermissionCancellationReasonView::ExecutionFinished
                        | PermissionCancellationReasonView::Custom(_)
                );
                let terminal_cancellation = matches!(
                    reason.view(),
                    PermissionCancellationReasonView::ExecutionFinished
                        | PermissionCancellationReasonView::ExecutionFailed
                        | PermissionCancellationReasonView::SessionFailed
                        | PermissionCancellationReasonView::SessionClosed
                        | PermissionCancellationReasonView::EventConsumerDropped
                        | PermissionCancellationReasonView::SessionHandlesDropped
                );
                let valid_lifecycle = if operation == 2 {
                    closure_cause
                } else {
                    !terminal_cancellation
                };
                if allowed && valid_lifecycle {
                    assert!(result.is_ok(), "{reason:?} {origin:?}");
                    assert_eq!(controller.retained_review_bytes(), 0);
                } else {
                    assert!(matches!(result, Err(AgentError::InvalidInput(_))));
                    assert!(!controller.session().is_closed());
                    assert_eq!(controller.retained_review_bytes(), bytes);
                    let resolution = controller.answer_permission(answer("permission")).unwrap();
                    assert_eq!(resolution.input(), &input());
                }
            }
            let mut request = PermissionRequest::new(
                PermissionId::new("permission").unwrap(),
                ExecutionId::new("execution").unwrap(),
                ToolCallId::new("tool").unwrap(),
                options("Allow".into()),
            );
            request.cancel(reason.clone()).unwrap();
            assert_eq!(
                PermissionCancellation::from_record(
                    ExecutionSessionId::new("session").unwrap(),
                    request,
                    input(),
                    origin.clone()
                )
                .is_ok(),
                allowed
            );
            let mut session = ExecutionSession::new(ExecutionSessionId::new("session").unwrap());
            session
                .begin_execution(ExecutionId::new("execution").unwrap())
                .unwrap();
            if let Ok(result) =
                session.close_execution(&ExecutionId::new("execution").unwrap(), reason.clone())
            {
                let (closure, _) = result.into_parts();
                assert_eq!(
                    SessionClosureRecord::new(closure.unwrap(), origin.clone()).is_ok(),
                    allowed
                );
            }
        }
    }
}

#[test]
fn rejected_reviews_preserve_the_observation_and_exact_pending_input() {
    let mut controller = controller();
    let tool_id = ToolCallId::new("tool").unwrap();
    request(&mut controller, "permission", "original").unwrap();
    assert!(request(&mut controller, "permission", "unaccepted").is_err());
    assert_eq!(tool_title(&controller, &tool_id).as_deref(), Some("original"));
    let resolution = controller.answer_permission(answer("permission")).unwrap();
    assert_eq!(resolution.input(), &input());
    assert_eq!(controller.retained_review_bytes(), 0);
    assert!(request(&mut controller, "permission", "replayed").is_err());
    assert_eq!(
        controller
            .close(
                PermissionCancellationReason::session_closed(),
                CancellationOrigin::Runtime
            )
            .unwrap()
            .len(),
        1
    );
    assert!(request(&mut controller, "other", "after close").is_err());
    assert_eq!(tool_title(&controller, &tool_id).as_deref(), Some("original"));
}

#[test]
fn permission_event_retains_snapshot_after_later_tool_updates() {
    let mut controller = controller();
    let event = request(&mut controller, "permission", "reviewed title").unwrap();
    controller
        .tool_event(
            &ExecutionId::new("execution").unwrap(),
            tool(Some("later title".into())),
        )
        .unwrap();
    let ExecutionUpdate::PermissionRequested {
        id,
        tool_id,
        observation,
        input: reviewed_input,
        ..
    } = event.update()
    else {
        panic!("expected permission review");
    };
    assert_eq!(event.execution_id().as_str(), "execution");
    assert_eq!(id.as_str(), "permission");
    assert_eq!(tool_id.as_str(), "tool");
    assert_eq!(observation.title().as_deref(), Some("reviewed title"));
    assert_eq!(reviewed_input, &input());
    assert_eq!(tool_title(&controller, tool_id).as_deref(), Some("later title"));
    let resolution = controller.answer_permission(answer("permission")).unwrap();
    assert_eq!(resolution.request().tool_id(), tool_id);
    assert_eq!(resolution.input(), reviewed_input);
}

#[test]
fn long_tool_identity_copies_count_at_admission_replacement_and_review_release() {
    let id = ToolCallId::new(&"t".repeat(256)).unwrap();
    let update = |title| ToolCallUpdate::new(id.clone(), title, None, None, None, None);
    let mut controller = controller();
    let identity_bytes = "execution".len() + 2 * id.as_str().len();
    assert!(controller
        .tool_event(
            &ExecutionId::new("execution").unwrap(),
            update(Some("x".repeat(MAX_RETAINED_BYTES - identity_bytes + 1)))
        )
        .is_err());
    assert_eq!(controller.session().tool_count(), 0);
    controller
        .tool_event(
            &ExecutionId::new("execution").unwrap(),
            update(Some("x".repeat(MAX_RETAINED_BYTES - identity_bytes))),
        )
        .unwrap();
    assert_eq!(controller.retained_tool_bytes(), MAX_RETAINED_BYTES);
    controller
        .tool_event(&ExecutionId::new("execution").unwrap(), update(None))
        .unwrap();
    assert_eq!(controller.retained_tool_bytes(), MAX_RETAINED_BYTES);
    assert!(controller
        .tool_event(
            &ExecutionId::new("execution").unwrap(),
            update(Some("x".repeat(MAX_RETAINED_BYTES - identity_bytes + 1)))
        )
        .is_err());
    assert_eq!(controller.retained_tool_bytes(), MAX_RETAINED_BYTES);
    controller
        .tool_event(
            &ExecutionId::new("execution").unwrap(),
            update(Some(String::new())),
        )
        .unwrap();
    assert_eq!(controller.retained_tool_bytes(), identity_bytes);
    for release in 0..5 {
        let target = controller.active_execution_id().unwrap().clone();
        let choices = options("Allow".into());
        let permission = PermissionId::new(&format!("review-{release}")).unwrap();
        let overhead = id.as_str().len()
            + 3 * permission.as_str().len()
            + controller.session().active_execution().unwrap().as_str().len()
            + choices.payload_bytes()
            + "Read".len();
        let review = |extra| ToolReviewInput {
            name: "Read".into(),
            arguments_json: "x".repeat(MAX_RETAINED_BYTES - overhead + extra),
        };
        assert!(controller
            .request_permission(
                &target,
                permission.clone(),
                update(None),
                review(1),
                choices.clone()
            )
            .is_err());
        assert_eq!(controller.retained_review_bytes(), 0);
        controller
            .request_permission(&target, permission.clone(), update(None), review(0), choices)
            .unwrap();
        assert_eq!(controller.retained_review_bytes(), MAX_RETAINED_BYTES);
        match release {
            0 => {
                controller
                    .answer_permission(answer(permission.as_str()))
                    .unwrap();
            }
            1 => {
                assert!(controller
                    .cancel_permission(
                        &target,
                        &permission,
                        PermissionCancellationReason::provider_withdrawal(),
                        CancellationOrigin::Provider
                    )
                    .unwrap()
                    .is_some());
            }
            2 => {
                assert_eq!(
                    controller
                        .cancel_permissions(
                            &target,
                            PermissionCancellationReason::deadline_exceeded(),
                            CancellationOrigin::Runtime
                        )
                        .unwrap()
                        .len(),
                    1
                );
            }
            3 => {
                let _evidence = controller
                    .finish_execution(&target, Ok(ExecutionOutcome::Completed))
                    .unwrap();
                assert_eq!(controller.retained_tool_bytes(), 0);
                controller
                    .begin_execution(ExecutionId::new("next-execution").unwrap())
                    .unwrap();
            }
            _ => {
                let records = controller
                    .close(
                        PermissionCancellationReason::session_closed(),
                        CancellationOrigin::Runtime,
                    )
                    .unwrap();
                assert_eq!(records.len(), 2);
            }
        }
        assert_eq!(controller.retained_review_bytes(), 0);
    }
}

#[test]
fn tool_budget_retains_sparse_fields_and_releases_replaced_or_finished_content() {
    let mut controller = controller();
    let identity_bytes = controller
        .session()
        .tool_payload_bytes_after(controller.session().active_execution().unwrap(), &tool(None))
        .unwrap();
    controller
        .tool_event(
            &ExecutionId::new("execution").unwrap(),
            tool(Some("x".repeat(MAX_RETAINED_BYTES - identity_bytes))),
        )
        .unwrap();
    controller
        .tool_event(&ExecutionId::new("execution").unwrap(), tool(None))
        .unwrap();
    assert_eq!(controller.retained_tool_bytes(), MAX_RETAINED_BYTES);
    let other = ToolCallUpdate::new(
        ToolCallId::new("other").unwrap(),
        Some("y".into()),
        None,
        None,
        None,
        None,
    );
    assert!(controller
        .tool_event(&ExecutionId::new("execution").unwrap(), other.clone())
        .is_err());
    assert_eq!(controller.session().tool_count(), 1);
    controller
        .tool_event(
            &ExecutionId::new("execution").unwrap(),
            tool(Some(String::new())),
        )
        .unwrap();
    controller
        .tool_event(&ExecutionId::new("execution").unwrap(), other)
        .unwrap();
    controller
        .finish_execution(
            &ExecutionId::new("execution").unwrap(),
            Ok(ExecutionOutcome::Completed),
        )
        .unwrap();
    assert_eq!(controller.retained_tool_bytes(), 0);
    assert_eq!(controller.session().tool_count(), 0);
}

#[test]
fn oversized_options_are_rejected_before_tool_or_permission_mutation() {
    let mut controller = controller();
    assert!(controller
        .request_permission(
            &ExecutionId::new("execution").unwrap(),
            PermissionId::new("p").unwrap(),
            tool(Some("unaccepted".into())),
            input(),
            options("x".repeat(MAX_RETAINED_BYTES))
        )
        .is_err());
    assert_eq!(controller.session().tool_count(), 0);
    assert_eq!(controller.session().permission_count(), 0);
    assert_eq!(controller.retained_review_bytes(), 0);
}

#[test]
fn cancellation_releases_only_its_review_and_execution_caps_include_resolved_ids() {
    let mut controller = controller();
    request(&mut controller, "first", "tool").unwrap();
    request(&mut controller, "second", "tool").unwrap();
    let both = controller.retained_review_bytes();
    assert!(matches!(controller
            .cancel_permission(
                &ExecutionId::new("execution").unwrap(),
                &PermissionId::new("first").unwrap(),
                PermissionCancellationReason::provider_withdrawal(),
                CancellationOrigin::Provider
            )
            .unwrap()
            .unwrap()
            .request()
            .state(),
        PermissionStateView::Cancelled { reason } if *reason.view() == PermissionCancellationReasonView::ProviderWithdrawal
    ));
    assert!(controller.retained_review_bytes() < both);
    assert_eq!(
        controller.answer_permission(answer("first")),
        Err(AgentError::StalePermission)
    );
    controller.answer_permission(answer("second")).unwrap();
    assert_eq!(controller.retained_review_bytes(), 0);
    for index in 2..MAX_EXECUTION_PERMISSIONS {
        let id = index.to_string();
        request(&mut controller, &id, "tool").unwrap();
        controller.answer_permission(answer(&id)).unwrap();
    }
    assert!(request(&mut controller, "over-limit", "tool").is_err());
    controller
        .finish_execution(
            &ExecutionId::new("execution").unwrap(),
            Ok(ExecutionOutcome::Completed),
        )
        .unwrap();
    controller
        .begin_execution(ExecutionId::new("next-execution").unwrap())
        .unwrap();
    request(&mut controller, "first", "tool").unwrap();
    assert_eq!(
        controller
            .cancel_permissions(
                &ExecutionId::new("next-execution").unwrap(),
                PermissionCancellationReason::deadline_exceeded(),
                CancellationOrigin::Runtime
            )
            .unwrap()
            .len(),
        1
    );
    assert_eq!(controller.retained_review_bytes(), 0);
}

#[test]
fn controller_rejects_reused_execution_identity_without_releasing_new_run() {
    let mut controller = controller();
    controller
        .finish_execution(
            &ExecutionId::new("execution").unwrap(),
            Ok(ExecutionOutcome::Completed),
        )
        .unwrap();
    assert!(matches!(
        controller.begin_execution(ExecutionId::new("execution").unwrap()),
        Err(AgentError::InvalidInput(_))
    ));
    assert_eq!(controller.session().active_execution(), None);
    controller
        .begin_execution(ExecutionId::new("next-execution").unwrap())
        .unwrap();
    request(&mut controller, "review", "tool").unwrap();
    let bytes = controller.retained_review_bytes();
    assert!(matches!(
        controller.finish_execution(
            &ExecutionId::new("next-execution").unwrap(),
            Err(PermissionCancellationReason::session_closed())
        ),
        Err(AgentError::InvalidInput(_))
    ));
    assert_eq!(
        controller.session().active_execution().unwrap().as_str(),
        "next-execution"
    );
    assert!(!controller.session().is_closed());
    assert_eq!(controller.retained_review_bytes(), bytes);
    assert_eq!(
        controller
            .close(
                PermissionCancellationReason::session_closed(),
                CancellationOrigin::Runtime
            )
            .unwrap()
            .len(),
        2
    );
    assert_eq!(
        controller
            .finish_execution(
                &ExecutionId::new("next-execution").unwrap(),
                Err(PermissionCancellationReason::session_closed())
            )
            .unwrap()
            .len(),
        1
    );
}

#[test]
fn stale_execution_close_preserves_later_run_and_review_accounting() {
    let mut controller = controller();
    controller
        .finish_execution(
            &ExecutionId::new("execution").unwrap(),
            Ok(ExecutionOutcome::Completed),
        )
        .unwrap();
    let next = ExecutionId::new("next").unwrap();
    controller.begin_execution(next.clone()).unwrap();
    request(&mut controller, "permission", "original").unwrap();
    let bytes = controller.retained_review_bytes();
    assert!(controller
        .finish_execution(
            &ExecutionId::new("execution").unwrap(),
            Ok(ExecutionOutcome::Completed)
        )
        .is_err());
    assert_eq!(controller.active_execution_id(), Some(&next));
    assert_eq!(controller.retained_review_bytes(), bytes);
    assert!(controller
        .close_execution(
            &ExecutionId::new("execution").unwrap(),
            PermissionCancellationReason::execution_failed(),
            CancellationOrigin::Runtime,
        )
        .is_err());
    assert_eq!(controller.active_execution_id(), Some(&next));
    assert!(!controller.session().is_closed());
    assert_eq!(controller.retained_review_bytes(), bytes);
    assert!(controller
        .close(
            PermissionCancellationReason::execution_failed(),
            CancellationOrigin::Runtime
        )
        .is_err());
    let records = controller
        .close_execution(
            &next,
            PermissionCancellationReason::execution_failed(),
            CancellationOrigin::Runtime,
        )
        .unwrap();
    assert_eq!(records.len(), 2);
    assert_eq!(controller.retained_review_bytes(), 0);
}
