//! Provider reports, capabilities, identities and shutdown causes.
mod close;
mod executable_use;
pub mod finalized_execution;
pub mod identity;
mod images;
pub mod laws;
pub mod operations;
mod opening;
mod ports;
mod reports;
pub use images::{ImageInputRefusal, UserImageError};
pub use ports::CloseOutcome;
pub use reports::{
    cleanup_bounded, cleanup_projection, option_bounded, with_earlier, report_projection, result_bounded,
    secondary_failure, unit_bounded, CleanupReport, ExecutionReport, ExecutionReportSource,
    ObservationFailure, ObservationFailureCause, ProviderExecutionReply, ProviderOperationFailure,
    ProviderSessionState, ResourceCleanup,
};
pub use close::{close_reason, ProviderSessionDeletion, SessionCloseRequest, SteeringOutcome};
pub use identity::ProviderIdentity;
pub use executable_use::{
    ExecutableUseAdmissionFailure, ExecutableUseAdmissionOwner, ExecutableUseError, ExecutableUseGuard,
    UnmanagedExecutableUseGuard,
};
pub use opening::{FailedOpenCauseSource, FailedOpenCleanup, ProviderOpenError};
