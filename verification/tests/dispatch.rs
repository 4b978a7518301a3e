use nessa_sdk::agent_execution::agents::AgentError;
use nessa_sdk::agent_execution::providers::{CleanupReport, CloseOutcome, ExecutionReport, ProviderSessionState};
use nessa_sdk::agent_execution::sessions::dispatch::{invocation_cancelled, DispatchRegistry};
use nessa_sdk::domain::executions::ExecutionOutcome;
use nessa_sdk::domain::ids::ExecutionId;

fn id(text: &str) -> ExecutionId {
    ExecutionId::new(text).unwrap()
}

fn undispatched() -> Result<(), AgentError> {
    Err(AgentError::Protocol("provider observation targets an undispatched invocation".into()))
}

#[test]
fn only_dispatched_invocations_deliver_output() {
    let mut registry = DispatchRegistry::new();
    assert_eq!(registry.validate_observation_owner(&id("run"), false), undispatched());
    registry.begin_dispatch(&id("run"));
    assert_eq!(registry.validate_observation_owner(&id("run"), false), Ok(()));
    assert_eq!(registry.validate_observation_owner(&id("other"), true), undispatched());
}

#[test]
fn after_its_boundary_an_invocation_delivers_only_cancellation_evidence() {
    let mut registry = DispatchRegistry::new();
    registry.begin_dispatch(&id("run"));
    registry.retire_observations(&id("run"));
    assert_eq!(
        registry.validate_observation_owner(&id("run"), false),
        Err(AgentError::Protocol("provider output follows its invocation observation boundary".into()))
    );
    assert_eq!(registry.validate_observation_owner(&id("run"), true), Ok(()));
    registry.retire_observations(&id("never"));
    assert_eq!(registry.validate_observation_owner(&id("never"), true), undispatched());
    registry.begin_dispatch(&id("run"));
    assert_eq!(registry.validate_observation_owner(&id("run"), false), Ok(()));
}

#[test]
fn a_rejected_dispatch_delivers_nothing() {
    let mut registry = DispatchRegistry::new();
    registry.begin_dispatch(&id("first"));
    registry.begin_dispatch(&id("second"));
    registry.reject_dispatch(&id("first"));
    assert_eq!(registry.validate_observation_owner(&id("first"), true), undispatched());
    assert_eq!(registry.validate_observation_owner(&id("second"), false), Ok(()));
}

#[test]
fn cancellation_is_read_from_explicit_facts_only() {
    let local = ExecutionReport::cancelled_locally(CleanupReport::confirmed(CloseOutcome { forced: false }));
    assert!(invocation_cancelled(Some(&local), None, None));
    let provider = ExecutionReport::new(Some(Ok(ExecutionOutcome::Cancelled)), None, ProviderSessionState::Usable);
    assert!(invocation_cancelled(Some(&provider), None, None));
    let finished = ExecutionReport::new(Some(Ok(ExecutionOutcome::Completed)), None, ProviderSessionState::Usable);
    assert!(!invocation_cancelled(Some(&finished), None, None));
    assert!(invocation_cancelled(None, Some(ExecutionOutcome::Cancelled), None));
    assert!(invocation_cancelled(None, None, Some(&Ok(ExecutionOutcome::Cancelled))));
    assert!(!invocation_cancelled(None, None, Some(&Err(AgentError::Closed))));
}
