//! Provider-attachment commands and read-only lifecycle projections.
use super::error_limits::bounded_as;
use super::AgentError;
use crate::agent_execution::permissions::ActionContext;
use crate::domain::attachment::AttachmentCause;
use vstd::prelude::*;

verus! {

/// Who may authorize a provider attachment attempt.
#[derive(Debug, PartialEq, Eq)]
pub enum AttachmentRequest {
    /// A host-verified caller requested initial attachment or restoration.
    CallerRequested(ActionContext),
    /// The existing lifecycle requested recovery after an automatic stop.
    AutomaticRecovery,
}

/// Stable failure category of an attachment attempt.
#[derive(Clone, Copy, Debug, PartialEq, Eq, Structural)]
pub enum AttachmentFailureCode {
    /// Mandatory attempt audit was not acknowledged.
    Audit,
    /// The provider could not open or restore its context.
    Provider,
    /// Durable provider-context publication failed.
    Storage,
    /// Release of provider resources could not be confirmed.
    Cleanup,
}

/// Current provider attachment phase; it grants no operation authority.
#[derive(Clone, Copy, Debug, PartialEq, Eq, Structural)]
pub enum AttachmentPhase {
    /// No attachment is active or starting.
    Absent,
    /// An authorization waits for the host readiness gate.
    Waiting,
    /// One attachment task is running.
    Starting,
    /// The current generation has a usable attachment.
    Attached,
    /// The most recent attempt failed in this category.
    Failed(AttachmentFailureCode),
}

/// Bounded diagnostic of a failed attachment phase.
#[derive(Debug, PartialEq, Eq)]
pub struct AttachmentFailure {
    code: AttachmentFailureCode,
    generation: u64,
    cause: AttachmentCause,
    error: AgentError,
}

impl Clone for AttachmentFailure {
    fn clone(&self) -> (r: Self)
        ensures
            r.spec_code() == self.spec_code(),
            r.spec_generation() == self.spec_generation(),
            r.spec_cause() == self.spec_cause(),
            crate::agent_execution::agents::comparison::err_eq(self.spec_error(), r.spec_error()),
    {
        AttachmentFailure {
            code: self.code,
            generation: self.generation,
            cause: self.cause,
            error: self.error.clone(),
        }
    }
}

impl AttachmentFailure {
    /// Failure category.
    pub closed spec fn spec_code(self) -> AttachmentFailureCode {
        self.code
    }

    /// Failed generation.
    pub closed spec fn spec_generation(self) -> u64 {
        self.generation
    }

    /// Authorized cause.
    pub closed spec fn spec_cause(self) -> AttachmentCause {
        self.cause
    }

    /// Bounded diagnostic.
    pub closed spec fn spec_error(self) -> AgentError {
        self.error
    }

    /// Records a failed attempt of `generation`, bounding its diagnostic.
    pub fn new(code: AttachmentFailureCode, generation: u64, cause: AttachmentCause, error: AgentError) -> (r: Self)
        ensures
            r.spec_code() == code,
            r.spec_generation() == generation,
            r.spec_cause() == cause,
            bounded_as(error, r.spec_error()),
    {
        AttachmentFailure { code, generation, cause, error: error.bounded() }
    }

    /// Stable category.
    pub fn code(&self) -> (r: AttachmentFailureCode)
        ensures
            r == self.spec_code(),
    {
        self.code
    }

    /// Attachment generation whose outcome failed.
    pub fn generation(&self) -> (r: u64)
        ensures
            r == self.spec_generation(),
    {
        self.generation
    }

    /// Authorized lifecycle cause.
    pub fn cause(&self) -> (r: AttachmentCause)
        ensures
            r == self.spec_cause(),
    {
        self.cause
    }

    /// Bounded diagnostic; it carries no admission or cleanup authority.
    pub fn error(&self) -> (r: &AgentError)
        ensures
            *r == self.spec_error(),
    {
        &self.error
    }
}

/// Atomic read projection of the attachment phase and its diagnostic.
#[derive(Debug, PartialEq, Eq)]
pub struct AttachmentStatus {
    phase: AttachmentPhase,
    failure: Option<AttachmentFailure>,
    evidence_failure: Option<AttachmentFailure>,
}

impl AttachmentStatus {
    /// A diagnostic is present exactly for a failed phase.
    #[verifier::type_invariant]
    pub closed spec fn consistent(self) -> bool {
        (self.phase is Failed) == (self.failure is Some)
    }

    /// Phase.
    pub closed spec fn spec_phase(self) -> AttachmentPhase {
        self.phase
    }

    /// Diagnostic of the failed phase.
    pub closed spec fn spec_failure(self) -> Option<AttachmentFailure> {
        self.failure
    }

    /// Late evidence failure.
    pub closed spec fn spec_evidence_failure(self) -> Option<AttachmentFailure> {
        self.evidence_failure
    }

    /// Projects `phase` with its diagnostic, present exactly when it failed, and
    /// any late evidence failure.
    pub fn new(
        phase: AttachmentPhase,
        failure: Option<AttachmentFailure>,
        evidence_failure: Option<AttachmentFailure>,
    ) -> (r: Self)
        requires
            (phase is Failed) == (failure is Some),
        ensures
            r.spec_phase() == phase,
            r.spec_failure() == failure,
            r.spec_evidence_failure() == evidence_failure,
    {
        AttachmentStatus { phase, failure, evidence_failure }
    }

    /// Current lifecycle phase.
    pub fn phase(&self) -> (r: AttachmentPhase)
        ensures
            r == self.spec_phase(),
    {
        self.phase
    }

    /// Diagnostic, present exactly for a failed phase.
    pub fn failure(&self) -> (r: Option<&AttachmentFailure>)
        ensures
            r is Some <==> self.spec_phase() is Failed,
            r is Some ==> *r->0 == self.spec_failure()->0,
    {
        proof {
            use_type_invariant(self);
        }
        match &self.failure {
            Some(f) => Some(f),
            None => None,
        }
    }

    /// Late mandatory-evidence failure, kept apart from current authority.
    pub fn evidence_failure(&self) -> (r: Option<&AttachmentFailure>)
        ensures
            r is Some <==> self.spec_evidence_failure() is Some,
            r is Some ==> *r->0 == self.spec_evidence_failure()->0,
    {
        match &self.evidence_failure {
            Some(f) => Some(f),
            None => None,
        }
    }
}

} // verus!
