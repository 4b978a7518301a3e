use nessa_sdk::agent_execution::agents::AgentError;
use nessa_sdk::agent_execution::providers::{
    CleanupReport, CloseOutcome, ExecutableUseAdmissionFailure, ExecutableUseAdmissionOwner, ExecutableUseError,
    ExecutableUseGuard, FailedOpenCauseSource, FailedOpenCleanup, ProviderOpenError, UnmanagedExecutableUseGuard,
};

#[test]
fn an_open_without_resources_keeps_only_its_cause() {
    let error: ProviderOpenError<u8> = ProviderOpenError::no_resources(AgentError::Transport("refused".into()));
    assert_eq!(error.cause(), &AgentError::Transport("refused".into()));
    assert!(error.cleanup().is_none());
    let (cause, cleanup, source) = error.into_parts();
    assert_eq!(cause, AgentError::Transport("refused".into()));
    assert!(matches!(cleanup, FailedOpenCleanup::NotStarted));
    assert_eq!(source, FailedOpenCauseSource::Independent);
}

#[test]
fn retained_resources_stay_with_their_owner_until_confirmed() {
    let error = ProviderOpenError::with_cleanup(AgentError::Deadline, 7u8);
    assert_eq!(error.cleanup(), Some(&7));
    match error.into_parts().1 {
        FailedOpenCleanup::Retained { report, owner } => {
            assert_eq!(owner, 7);
            assert!(!report.is_confirmed());
        }
        _ => panic!("resources were transferred"),
    }
}

#[test]
fn a_failed_cleanup_report_supplies_the_cause() {
    let report = CleanupReport::unconfirmed(AgentError::CleanupUncertain);
    let error = ProviderOpenError::with_cleanup_report(AgentError::Deadline, report, Some(1u8));
    assert_eq!(error.cause(), &AgentError::CleanupUncertain);
    assert_eq!(error.cleanup(), Some(&1));
    let confirmed = CleanupReport::confirmed(CloseOutcome { forced: false });
    let error: ProviderOpenError<u8> = ProviderOpenError::with_cleanup_report(AgentError::Deadline, confirmed, None);
    assert_eq!(error.cause(), &AgentError::Deadline);
    let (_, cleanup, source) = error.into_parts();
    assert!(matches!(cleanup, FailedOpenCleanup::Completed(_)));
    assert_eq!(source, FailedOpenCauseSource::Independent);
}

#[test]
fn admission_failures_keep_their_generation_guard() {
    let error = ExecutableUseError::new("reservation uncertain");
    let failure = ExecutableUseAdmissionFailure::with_uncertain_generation(error, UnmanagedExecutableUseGuard);
    assert_eq!(failure.error().message(), "reservation uncertain");
    let (error, owner) = failure.into_parts();
    assert_eq!(error, ExecutableUseError::new("reservation uncertain"));
    let owner = owner.unwrap();
    assert!(matches!(owner, ExecutableUseAdmissionOwner::Uncertain(_)));
    let mut guard = owner.into_guard();
    assert_eq!(guard.release(), Ok(()));
    let none: ExecutableUseAdmissionFailure<UnmanagedExecutableUseGuard> =
        ExecutableUseAdmissionFailure::without_owner(ExecutableUseError::new("conflict"));
    assert!(none.into_parts().1.is_none());
}
