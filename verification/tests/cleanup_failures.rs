use nessa_sdk::agent_execution::agents::AgentError;
use nessa_sdk::agent_execution::sessions::attachment::combine_failures;

fn both(first: AgentError, next: AgentError) -> AgentError {
    AgentError::MultipleOperationFailures { first_error: Box::new(first), subsequent_error: Box::new(next) }
}

#[test]
fn distinct_failures_nest_in_order() {
    assert_eq!(combine_failures(AgentError::Deadline, AgentError::AuditFailure), both(AgentError::Deadline, AgentError::AuditFailure));
}

#[test]
fn a_reobserved_failure_is_kept_once() {
    assert_eq!(combine_failures(AgentError::Deadline, AgentError::Deadline), AgentError::Deadline);
    let earlier = both(AgentError::Deadline, AgentError::AuditFailure);
    assert_eq!(combine_failures(earlier, AgentError::Deadline), both(AgentError::Deadline, AgentError::AuditFailure));
}

#[test]
fn nested_failures_are_flattened_from_the_left() {
    let next = both(AgentError::Busy, both(AgentError::Closed, AgentError::Busy));
    assert_eq!(
        combine_failures(AgentError::Deadline, next),
        both(both(AgentError::Deadline, AgentError::Busy), AgentError::Closed)
    );
}

#[test]
fn a_diagnostic_limit_replaces_the_whole_join() {
    let next = both(AgentError::Busy, AgentError::DiagnosticLimit);
    assert_eq!(combine_failures(AgentError::Deadline, next), AgentError::DiagnosticLimit);
}
