use nessa_sdk::agent_execution::agents::comparison::{copy_error, same_error};
use nessa_sdk::agent_execution::agents::error_limits::{compact_diagnostic, DIAGNOSTIC_LIMIT};
use nessa_sdk::agent_execution::agents::AgentError;
use nessa_sdk::agent_execution::hooks::{
    after_hooks_result, before_hook_failure, bounded_result, HookError, HookFailure,
};
use nessa_sdk::agent_execution::sessions::StorageError;
use nessa_sdk::domain::executions::ExecutionOutcome;

fn nested(depth: usize) -> AgentError {
    let mut error = AgentError::Closed;
    for _ in 1..depth {
        error = AgentError::ExecutionObservation {
            error: Box::new(error),
            execution_result: None,
        };
    }
    error
}

#[test]
fn small_error_trees_are_retained() {
    assert!(AgentError::Busy.validate_retained_size().is_ok());
    assert!(nested(32).validate_retained_size().is_ok());
    let pair = AgentError::MultipleOperationFailures {
        first_error: Box::new(AgentError::Protocol("first".into())),
        subsequent_error: Box::new(AgentError::Transport("second".into())),
    };
    assert!(pair.validate_retained_size().is_ok());
}

#[test]
fn error_trees_deeper_than_thirty_two_levels_are_corrupt() {
    assert!(matches!(
        nested(33).validate_retained_size(),
        Err(StorageError::Corrupt(_))
    ));
}

#[test]
fn error_trees_with_more_than_128_nodes_are_corrupt() {
    let failures = (0..128)
        .map(|index| HookFailure {
            index,
            error: HookError::Panicked,
        })
        .collect::<Vec<_>>();
    let error = AgentError::AfterInvocationHooks {
        failures,
        execution_result: Box::new(Ok(ExecutionOutcome::Completed)),
    };
    assert!(matches!(
        error.validate_retained_size(),
        Err(StorageError::Corrupt(_))
    ));
    let failures = (0..127)
        .map(|index| HookFailure {
            index,
            error: HookError::Panicked,
        })
        .collect::<Vec<_>>();
    let error = AgentError::AfterInvocationHooks {
        failures,
        execution_result: Box::new(Ok(ExecutionOutcome::Completed)),
    };
    assert!(error.validate_retained_size().is_ok());
}

#[test]
fn error_trees_over_one_mebibyte_are_corrupt() {
    let error = AgentError::Protocol("x".repeat(1024 * 1024));
    assert!(matches!(
        error.validate_retained_size(),
        Err(StorageError::Corrupt(_))
    ));
    let error = AgentError::Protocol("x".repeat(1024 * 1024 - 1024));
    assert!(error.validate_retained_size().is_ok());
}

#[test]
fn short_diagnostics_are_kept_and_long_ones_cut_with_a_marker() {
    assert_eq!(compact_diagnostic("short".to_owned()), "short");
    let exact = "a".repeat(DIAGNOSTIC_LIMIT);
    assert_eq!(compact_diagnostic(exact.clone()), exact);
    let cut = compact_diagnostic("a".repeat(DIAGNOSTIC_LIMIT + 1));
    assert_eq!(cut.len(), DIAGNOSTIC_LIMIT);
    assert!(cut.ends_with(" [diagnostic truncated]"));
    assert!(cut.starts_with(&"a".repeat(4073)));
}

#[test]
fn cut_diagnostics_end_on_a_character_boundary() {
    let cut = compact_diagnostic("é".repeat(3000));
    assert_eq!(cut.len(), 4072 + 23);
    assert!(cut.starts_with(&"é".repeat(2036)));
    assert!(cut.ends_with(" [diagnostic truncated]"));
}

#[test]
fn bounding_compacts_text_or_replaces_oversized_trees() {
    let fitting = AgentError::InvalidInput("fine".into());
    assert_eq!(fitting.clone().bounded(), fitting);
    let long = AgentError::Transport("y".repeat(2 * 1024 * 1024));
    match long.bounded() {
        AgentError::Transport(text) => {
            assert_eq!(text.len(), 4096);
            assert!(text.ends_with(" [diagnostic truncated]"));
        }
        other => panic!("unexpected {other:?}"),
    }
    assert_eq!(nested(40).bounded(), AgentError::DiagnosticLimit);
}

#[test]
fn discarding_a_deep_tree_does_not_recurse() {
    nested(20_000).discard_iteratively();
}

#[test]
fn copies_compare_equal_by_content() {
    let error = AgentError::OperationAndCleanupFailure {
        operation_error: Box::new(AgentError::Storage(StorageError::Io("disk".into()))),
        cleanup_error: Box::new(AgentError::AfterInvocationHooks {
            failures: vec![HookFailure {
                index: 2,
                error: HookError::Failed("hook".into()),
            }],
            execution_result: Box::new(Err(AgentError::Deadline)),
        }),
    };
    let copy = copy_error(&error);
    assert_eq!(copy, error);
    assert!(same_error(&copy, &error));
    assert!(!same_error(&AgentError::Protocol("a".into()), &AgentError::Protocol("b".into())));
    assert!(!same_error(&AgentError::Busy, &AgentError::Closed));
}

#[test]
fn hook_failures_keep_the_execution_result() {
    let failure = before_hook_failure(3, HookError::Failed("denied".into()));
    assert_eq!(
        failure,
        AgentError::BeforeInvocationHook(HookFailure {
            index: 3,
            error: HookError::Failed("denied".into())
        })
    );
    assert_eq!(
        after_hooks_result(Ok(ExecutionOutcome::Completed), Vec::new()),
        Ok(ExecutionOutcome::Completed)
    );
    let settled = after_hooks_result(
        Ok(ExecutionOutcome::Refused),
        vec![HookFailure {
            index: 0,
            error: HookError::Panicked,
        }],
    );
    assert_eq!(
        settled,
        Err(AgentError::AfterInvocationHooks {
            failures: vec![HookFailure {
                index: 0,
                error: HookError::Panicked
            }],
            execution_result: Box::new(Ok(ExecutionOutcome::Refused)),
        })
    );
}

#[test]
fn storage_diagnostics_are_compacted_without_changing_kind() {
    match StorageError::Corrupt("z".repeat(5000)).bounded() {
        StorageError::Corrupt(text) => assert_eq!(text.len(), 4096),
        other => panic!("unexpected {other:?}"),
    }
    assert_eq!(StorageError::Busy.bounded(), StorageError::Busy);
}

fn panicked_hooks(count: usize) -> AgentError {
    AgentError::AfterInvocationHooks {
        failures: vec![
            HookFailure {
                index: 0,
                error: HookError::Panicked
            };
            count
        ],
        execution_result: Box::new(Ok(ExecutionOutcome::Completed)),
    }
}

#[test]
fn the_verdict_for_a_given_spare_counts_nodes_and_bytes() {
    assert!(panicked_hooks(127).validate_with_spare(0).is_ok());
    assert!(matches!(
        panicked_hooks(128).validate_with_spare(0),
        Err(StorageError::Corrupt(text)) if text == "retained error exceeds 1 MiB, 128 nodes, or depth 32"
    ));
    let text = AgentError::Protocol("x".repeat(1024));
    assert!(text.validate_with_spare(0).is_ok());
    assert!(text.validate_with_spare(1024 * 1024).is_err());
    assert!(text.validate_with_spare(512 * 1024).is_ok());
    assert!(AgentError::Busy.validate_with_spare(2 * 1024 * 1024).is_err());
}

#[test]
fn trees_without_buffers_are_accepted_exactly_when_they_fit() {
    let pair = AgentError::MultipleOperationFailures {
        first_error: Box::new(AgentError::Busy),
        subsequent_error: Box::new(AgentError::DiagnosticLimit),
    };
    assert!(pair.validate_retained_size().is_ok());
    assert!(AgentError::Closed.validate_retained_size().is_ok());
    assert!(nested(32).validate_retained_size().is_ok());
    assert!(nested(33).validate_retained_size().is_err());
    assert_eq!(pair.clone().bounded(), pair);
    assert_eq!(nested(40).bounded(), AgentError::DiagnosticLimit);
}

#[test]
fn bounding_for_a_given_spare_keeps_or_cuts_down() {
    let text = AgentError::Protocol("x".repeat(10));
    assert_eq!(text.clone().bounded_with_spare(0), text);
    assert_eq!(
        text.clone().bounded_with_spare(2 * 1024 * 1024),
        AgentError::Protocol("x".repeat(10))
    );
    assert_eq!(
        panicked_hooks(128).bounded_with_spare(0),
        AgentError::DiagnosticLimit
    );
    assert_eq!(panicked_hooks(127).bounded_with_spare(0), panicked_hooks(127));
    let once = AgentError::Transport("y".repeat(10_000)).bounded_with_spare(0);
    assert_eq!(once.clone().bounded_with_spare(0), once);
}

#[test]
fn settled_results_pass_the_after_hooks_unchanged() {
    let failed: Result<ExecutionOutcome, AgentError> = Err(AgentError::Protocol("bad frame".into()));
    assert_eq!(bounded_result(failed.clone()), failed);
    assert_eq!(after_hooks_result(failed.clone(), Vec::new()), failed);
    assert_eq!(
        bounded_result(Ok(ExecutionOutcome::Completed)),
        Ok(ExecutionOutcome::Completed)
    );
    let kept: Result<ExecutionOutcome, AgentError> = Err(AgentError::Protocol("p".repeat(5000)));
    assert_eq!(bounded_result(kept.clone()), kept);
    match bounded_result(Err(AgentError::Protocol("p".repeat(2 * 1024 * 1024)))) {
        Err(AgentError::Protocol(text)) => assert_eq!(text.len(), 4096),
        other => panic!("unexpected {other:?}"),
    }
}
