//! Typed SDK failures preserve execution, observation, storage, and cleanup outcomes.
use super::attachment::AttachmentPhase;
use crate::agent_execution::hooks::HookFailure;
use crate::agent_execution::providers::{CloseOutcome, ImageInputRefusal, UserImageError};
use crate::agent_execution::sessions::StorageError;
use crate::domain::executions::ExecutionOutcome;
use crate::domain::scheduling::SchedulingError;
use vstd::prelude::*;

verus! {

/// Failures of agent operations. Nested variants retain every underlying outcome.
#[derive(Debug, PartialEq, Eq)]
#[allow(inconsistent_fields)]
pub enum AgentError {
    /// One invocation's retained output exceeded its budget.
    OutputRetentionLimit,
    /// A diagnostic tree exceeded its retention bound and was replaced.
    DiagnosticLimit,
    /// Invalid configuration.
    Configuration(String),
    /// A retried submission contradicts the original.
    SubmissionConflict,
    /// A submission's settlement could not be established.
    SubmissionUnresolved,
    /// Observation failed; the execution's own result is kept when known.
    ExecutionObservation {
        /// Observation failure.
        error: Box<AgentError>,
        /// Execution result, when known.
        execution_result: Option<Box<Result<ExecutionOutcome, AgentError>>>,
    },
    /// Two operation failures in causal order.
    MultipleOperationFailures {
        /// Earlier failure.
        first_error: Box<AgentError>,
        /// Later failure.
        subsequent_error: Box<AgentError>,
    },
    /// An operation failed and its cleanup failed too.
    OperationAndCleanupFailure {
        /// Operation failure.
        operation_error: Box<AgentError>,
        /// Cleanup failure.
        cleanup_error: Box<AgentError>,
    },
    /// The scheduler refused a submission.
    Scheduling(SchedulingError),
    /// Storage failed while closing; cleanup's result is kept.
    StorageDuringClose {
        /// Storage failure.
        error: StorageError,
        /// Cleanup result.
        cleanup_result: Box<Result<CloseOutcome, AgentError>>,
    },
    /// Storage failed.
    Storage(StorageError),
    /// Storage failed during initialization; cleanup's result is kept.
    StorageInitialization {
        /// Storage failure.
        error: StorageError,
        /// Cleanup result.
        cleanup_result: Box<Result<CloseOutcome, AgentError>>,
    },
    /// Storage failed after the execution settled; its result is kept.
    StorageAfterExecution {
        /// Storage failure.
        error: StorageError,
        /// Execution result.
        execution_result: Box<Result<ExecutionOutcome, AgentError>>,
    },
    /// The operation is not supported.
    Unsupported(String),
    /// The input is invalid.
    InvalidInput(String),
    /// A referenced user image could not be supplied.
    UserImage(UserImageError),
    /// Image input was refused.
    ImageInputRefused(ImageInputRefusal),
    /// An encoded message exceeds the provider's limit.
    MessageTooLarge {
        /// Encoded size.
        encoded_bytes: u64,
        /// Largest accepted size.
        max_bytes: u64,
    },
    /// Another execution is active.
    Busy,
    /// The session is closed.
    Closed,
    /// An attachment authorization no longer matches the lifecycle.
    AttachmentAuthorizationStale,
    /// No usable attachment admits the operation in this phase.
    AttachmentUnavailable(AttachmentPhase),
    /// A permission answer no longer matches a pending review.
    StalePermission,
    /// The provider broke the protocol.
    Protocol(String),
    /// The provider reported an error code.
    Provider {
        /// Provider error code.
        code: i64,
    },
    /// Transport failed.
    Transport(String),
    /// A deadline passed.
    Deadline,
    /// A bounded queue was full.
    Backpressure,
    /// Cleanup could not be confirmed.
    CleanupUncertain,
    /// Mandatory audit failed.
    AuditFailure,
    /// Audit and cleanup both failed.
    AuditAndCleanupFailure,
    /// Answer delivery failed, and so did its audit.
    PermissionAnswerDeliveryAndAuditFailure {
        /// Delivery failure.
        delivery_error: Box<AgentError>,
        /// Cleanup failure, when any.
        cleanup_error: Option<Box<AgentError>>,
    },
    /// A before-invocation hook failed.
    BeforeInvocationHook(HookFailure),
    /// After-invocation hooks failed; the execution result is kept.
    AfterInvocationHooks {
        /// Failed hooks in registration order.
        failures: Vec<HookFailure>,
        /// Execution result.
        execution_result: Box<Result<ExecutionOutcome, AgentError>>,
    },
}

} // verus!
