use crate::agent_execution::agents::error_limits::bounded_as;
use crate::agent_execution::agents::AgentError;
use crate::domain::executions::ExecutionOutcome;
use vstd::prelude::*;

verus! {

/// Why one invocation hook failed.
#[derive(Debug, PartialEq, Eq)]
pub enum HookError {
    /// The hook reported a failure.
    Failed(String),
    /// The hook panicked.
    Panicked,
}

impl Clone for HookError {
    fn clone(&self) -> (r: Self)
        ensures
            r == *self,
    {
        match self {
            HookError::Failed(s) => HookError::Failed(s.clone()),
            HookError::Panicked => HookError::Panicked,
        }
    }
}

/// A hook failure and the position of its hook in registration order.
#[derive(Debug, PartialEq, Eq)]
pub struct HookFailure {
    /// Registration index of the failed hook.
    pub index: usize,
    /// What failed.
    pub error: HookError,
}

impl Clone for HookFailure {
    fn clone(&self) -> (r: Self)
        ensures
            r == *self,
    {
        HookFailure { index: self.index, error: self.error.clone() }
    }
}


/// The failure that stops an invocation when the before hook at `index` fails:
/// a bounded [`AgentError::BeforeInvocationHook`].
pub fn before_hook_failure(index: usize, error: HookError) -> (r: AgentError)
    ensures
        bounded_as(AgentError::BeforeInvocationHook(HookFailure { index, error }), r),
{
    AgentError::BeforeInvocationHook(HookFailure { index, error }).bounded()
}

/// Whether `after` is the execution result `before` with its failure bounded.
pub open spec fn outcome_bounded(
    before: Result<ExecutionOutcome, AgentError>,
    after: Result<ExecutionOutcome, AgentError>,
) -> bool {
    match before {
        Ok(o) => after == Ok::<ExecutionOutcome, AgentError>(o),
        Err(e) => match after {
            Err(b) => bounded_as(e, b),
            Ok(_) => false,
        },
    }
}

/// An execution result with its failure bounded, as the after hooks receive it.
pub fn bounded_result(result: Result<ExecutionOutcome, AgentError>) -> (r: Result<ExecutionOutcome, AgentError>)
    ensures
        outcome_bounded(result, r),
{
    match result {
        Ok(o) => Ok(o),
        Err(e) => Err(e.bounded()),
    }
}

/// The result an invocation settles with once every after hook ran on `settled`,
/// its already bounded execution result: `settled` itself when no hook failed;
/// otherwise a bounded [`AgentError::AfterInvocationHooks`] keeping the failures in
/// registration order beside it.
pub fn after_hooks_result(
    settled: Result<ExecutionOutcome, AgentError>,
    failures: Vec<HookFailure>,
) -> (r: Result<ExecutionOutcome, AgentError>)
    ensures
        failures@.len() == 0 ==> r == settled,
        failures@.len() > 0 ==> (r matches Err(x) && bounded_as(
            AgentError::AfterInvocationHooks { failures, execution_result: Box::new(settled) },
            x,
        )),
{
    if failures.len() == 0 {
        settled
    } else {
        Err(AgentError::AfterInvocationHooks { failures, execution_result: Box::new(settled) }.bounded())
    }
}

} // verus!
