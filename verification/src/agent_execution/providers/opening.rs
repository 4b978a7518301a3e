//! A failed provider open and the resources it still owns.
use super::{cleanup_bounded, cleanup_projection, CleanupReport, ResourceCleanup};
use crate::agent_execution::agents::comparison::err_eq;
use crate::agent_execution::agents::error_limits::bounded_as;
use crate::agent_execution::agents::AgentError;
use vstd::prelude::*;

verus! {

/// Whether a failed open's cause came from the opener or from its cleanup report.
#[derive(Clone, Copy, Debug, PartialEq, Eq, Structural)]
pub enum FailedOpenCauseSource {
    /// The opener's own failure.
    Independent,
    /// The failure of the cleanup report it carried.
    CleanupReport,
}

/// Cleanup of a failed open, with the owner `C` of resources still held.
pub enum FailedOpenCleanup<C> {
    /// No resources were acquired.
    NotStarted,
    /// Cleanup confirmed release.
    Completed(CleanupReport),
    /// Resources remain owned by `owner` until a retry confirms release.
    Retained {
        /// Latest cleanup evidence.
        report: CleanupReport,
        /// Retry capability that owns the resources.
        owner: C,
    },
}

/// Failed attachment plus any resources whose termination remains unconfirmed,
/// held by a cleanup owner `C`. The resource variant is authoritative; the cause
/// is diagnostic only.
pub struct ProviderOpenError<C> {
    cause: AgentError,
    cleanup: FailedOpenCleanup<C>,
    cause_source: FailedOpenCauseSource,
}

impl<C> ProviderOpenError<C> {
    /// Bounded opening failure.
    pub closed spec fn spec_cause(self) -> AgentError {
        self.cause
    }

    /// Resource ownership.
    pub closed spec fn spec_cleanup(self) -> FailedOpenCleanup<C> {
        self.cleanup
    }

    /// Origin of the cause.
    pub closed spec fn spec_cause_source(self) -> FailedOpenCauseSource {
        self.cause_source
    }

    /// A failure whose opener owns no resources; `cause` is bounded.
    pub fn no_resources(cause: AgentError) -> (r: Self)
        ensures
            bounded_as(cause, r.spec_cause()),
            r.spec_cleanup() is NotStarted,
            r.spec_cause_source() == FailedOpenCauseSource::Independent,
    {
        ProviderOpenError {
            cause: cause.bounded(),
            cleanup: FailedOpenCleanup::NotStarted,
            cause_source: FailedOpenCauseSource::Independent,
        }
    }

    /// A failure that transfers unfinished resources to `cleanup`, whose release
    /// is not yet confirmed; `cause` is bounded.
    pub fn with_cleanup(cause: AgentError, cleanup: C) -> (r: Self)
        ensures
            bounded_as(cause, r.spec_cause()),
            r.spec_cleanup() matches FailedOpenCleanup::Retained { report, owner } && owner == cleanup
                && cleanup_bounded(ResourceCleanup::Unconfirmed(AgentError::CleanupUncertain), report.spec_resources())
                && report.spec_audit() is Ok && report.spec_operation_failure() is None,
            r.spec_cause_source() == FailedOpenCauseSource::Independent,
    {
        ProviderOpenError {
            cause: cause.bounded(),
            cleanup: FailedOpenCleanup::Retained {
                report: CleanupReport::unconfirmed(AgentError::CleanupUncertain),
                owner: cleanup,
            },
            cause_source: FailedOpenCauseSource::Independent,
        }
    }

    /// A failure carrying cleanup evidence: confirmed evidence completes cleanup,
    /// unconfirmed evidence keeps the resources with `cleanup`. The report's own
    /// failure, when it has one, replaces `cause`; the cause is bounded.
    pub fn with_cleanup_report(cause: AgentError, report: CleanupReport, cleanup: Option<C>) -> (r: Self)
        requires
            (report.spec_resources() is Confirmed) == (cleanup is None),
        ensures
            ({
                let projected = cleanup_projection(
                    report.spec_resources(),
                    report.spec_audit(),
                    report.spec_operation_failure(),
                );
                &&& r.spec_cause_source() == if projected is Err {
                    FailedOpenCauseSource::CleanupReport
                } else {
                    FailedOpenCauseSource::Independent
                }
                &&& projected is Ok ==> bounded_as(cause, r.spec_cause())
                &&& projected matches Err(e) ==> exists|x: AgentError| err_eq(e, x) && bounded_as(x, r.spec_cause())
            }),
            r.spec_cleanup() == match cleanup {
                None => FailedOpenCleanup::Completed(report),
                Some(owner) => FailedOpenCleanup::Retained { report, owner },
            },
    {
        let reported = report.failure();
        let cause_source = if reported.is_some() {
            FailedOpenCauseSource::CleanupReport
        } else {
            FailedOpenCauseSource::Independent
        };
        let cause = match reported {
            Some(x) => x,
            None => cause,
        };
        let cleanup = match cleanup {
            None => FailedOpenCleanup::Completed(report),
            Some(owner) => FailedOpenCleanup::Retained { report, owner },
        };
        ProviderOpenError { cause: cause.bounded(), cleanup, cause_source }
    }

    /// Bounded opening failure, including cleanup and audit evidence.
    pub fn cause(&self) -> (r: &AgentError)
        ensures
            *r == self.spec_cause(),
    {
        &self.cause
    }

    /// The owner of resources that still require supervision.
    pub fn cleanup(&self) -> (r: Option<&C>)
        ensures
            match self.spec_cleanup() {
                FailedOpenCleanup::Retained { owner, .. } => r == Some(&owner),
                _ => r is None,
            },
    {
        match &self.cleanup {
            FailedOpenCleanup::Retained { owner, .. } => Some(owner),
            _ => None,
        }
    }

    /// Separates the cause, the cleanup ownership and the cause's origin.
    pub fn into_parts(self) -> (r: (AgentError, FailedOpenCleanup<C>, FailedOpenCauseSource))
        ensures
            r == (self.spec_cause(), self.spec_cleanup(), self.spec_cause_source()),
    {
        (self.cause, self.cleanup, self.cause_source)
    }
}

} // verus!
