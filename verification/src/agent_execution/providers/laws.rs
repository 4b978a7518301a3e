//! Properties of provider reports that span their projections.
use super::reports::{
    cleanup_projection, report_projection, secondary_failure, ExecutionReportSource, ProviderSessionState,
    ResourceCleanup,
};
use crate::agent_execution::agents::AgentError;
use crate::domain::executions::ExecutionOutcome;
use vstd::prelude::*;

verus! {

/// Cleanup succeeds exactly when resources were confirmed released and the audit
/// was delivered; an earlier operation failure alone never fails it.
pub proof fn law_cleanup_succeeds_when_confirmed_and_audited(
    resources: ResourceCleanup,
    audit: Result<(), AgentError>,
    operation_failure: Option<AgentError>,
)
    ensures
        cleanup_projection(resources, audit, operation_failure) is Ok <==> resources is Confirmed && audit is Ok,
{
}

/// A known provider outcome is never lost: the consumer result is that outcome,
/// or a failure that keeps it as the execution's result.
pub proof fn law_known_outcome_is_kept(
    outcome: ExecutionOutcome,
    source: ExecutionReportSource,
    failure: Option<AgentError>,
    state: ProviderSessionState,
)
    ensures
        ({
            let r = report_projection(Some(Ok(outcome)), source, failure, state);
            ||| r == Ok::<ExecutionOutcome, AgentError>(outcome)
            ||| r matches Err(AgentError::ExecutionObservation { execution_result: Some(kept), .. }) && *kept == Ok::<
                ExecutionOutcome,
                AgentError,
            >(outcome)
        }),
{
}

/// Without a provider reply or any failure, local cancellation settles as
/// cancelled and anything else stays unresolved, never a success.
pub proof fn law_unknown_result_without_failure(source: ExecutionReportSource, state: ProviderSessionState)
    requires
        secondary_failure(None, state) is None,
    ensures
        report_projection(None, source, None, state) == if source == ExecutionReportSource::LocalCancellation {
            Ok::<ExecutionOutcome, AgentError>(ExecutionOutcome::Cancelled)
        } else {
            Err::<ExecutionOutcome, AgentError>(AgentError::SubmissionUnresolved)
        },
{
}

} // verus!
