//! Diagnostics of executable-use admission and release.
use vstd::prelude::*;

verus! {

/// A failure to durably admit or release one executable-use generation; the
/// message is diagnostic only.
#[derive(Clone, Debug, PartialEq, Eq)]
pub struct ExecutableUseError {
    message: String,
}

impl ExecutableUseError {
    /// The diagnostic text.
    pub closed spec fn spec_message(self) -> Seq<char> {
        self.message@
    }

    /// A diagnostic for a failed durable use operation.
    pub fn new(message: &str) -> (r: Self)
        ensures
            r.spec_message() == message@,
    {
        ExecutableUseError { message: message.to_owned() }
    }

    /// The diagnostic text.
    pub fn message(&self) -> (r: &str)
        ensures
            r@ == self.spec_message(),
    {
        self.message.as_str()
    }
}


/// One admitted executable-use generation. Release is explicit and retryable,
/// valid only once the generation never spawned or all its processes were
/// cleaned up; dropping the guard leaves the admission unresolved.
pub trait ExecutableUseGuard {
    /// Durably acknowledges that this generation no longer uses the executable;
    /// a failure leaves the guard owned so that release can be retried.
    fn release(&mut self) -> Result<(), ExecutableUseError>;
}

/// The guard of an executable without managed reclamation: release always succeeds.
pub struct UnmanagedExecutableUseGuard;

impl ExecutableUseGuard for UnmanagedExecutableUseGuard {
    fn release(&mut self) -> (r: Result<(), ExecutableUseError>)
        ensures
            r is Ok,
    {
        Ok(())
    }
}

/// Cleanup ownership a failed pre-spawn admission keeps, with its guard `G`.
pub enum ExecutableUseAdmissionOwner<G> {
    /// The exact durable reservation was acknowledged and must exist.
    Confirmed(G),
    /// Publication of the reservation is uncertain and cleanup must reconcile it.
    Uncertain(G),
}

impl<G> ExecutableUseAdmissionOwner<G> {
    /// The generation's guard, whichever way its reservation stands.
    pub fn into_guard(self) -> (r: G)
        ensures
            r == match self {
                ExecutableUseAdmissionOwner::Confirmed(g) => g,
                ExecutableUseAdmissionOwner::Uncertain(g) => g,
            },
    {
        match self {
            ExecutableUseAdmissionOwner::Confirmed(guard) => guard,
            ExecutableUseAdmissionOwner::Uncertain(guard) => guard,
        }
    }
}

/// A failed executable-use admission and the exact pre-spawn generation it may
/// have created; no spawn is attempted after any admission failure.
pub struct ExecutableUseAdmissionFailure<G> {
    error: ExecutableUseError,
    owner: Option<ExecutableUseAdmissionOwner<G>>,
}

impl<G> ExecutableUseAdmissionFailure<G> {
    /// Diagnostic.
    pub closed spec fn spec_error(self) -> ExecutableUseError {
        self.error
    }

    /// Retained ownership.
    pub closed spec fn spec_owner(self) -> Option<ExecutableUseAdmissionOwner<G>> {
        self.owner
    }

    /// A failure that grants no cleanup authority: nothing was reserved, or the
    /// evidence is not this caller's to modify.
    pub fn without_owner(error: ExecutableUseError) -> (r: Self)
        ensures
            r.spec_error() == error,
            r.spec_owner() is None,
    {
        ExecutableUseAdmissionFailure { error, owner: None }
    }

    /// A failure that owns an exact, confirmed reservation through `guard`.
    pub fn with_confirmed_generation(error: ExecutableUseError, guard: G) -> (r: Self)
        ensures
            r.spec_error() == error,
            r.spec_owner() == Some(ExecutableUseAdmissionOwner::Confirmed(guard)),
    {
        ExecutableUseAdmissionFailure { error, owner: Some(ExecutableUseAdmissionOwner::Confirmed(guard)) }
    }

    /// A failure whose pre-spawn reservation is uncertain; `guard` reconciles it.
    pub fn with_uncertain_generation(error: ExecutableUseError, guard: G) -> (r: Self)
        ensures
            r.spec_error() == error,
            r.spec_owner() == Some(ExecutableUseAdmissionOwner::Uncertain(guard)),
    {
        ExecutableUseAdmissionFailure { error, owner: Some(ExecutableUseAdmissionOwner::Uncertain(guard)) }
    }

    /// The diagnostic, keeping retry ownership.
    pub fn error(&self) -> (r: &ExecutableUseError)
        ensures
            *r == self.spec_error(),
    {
        &self.error
    }

    /// Separates the diagnostic from the retained reservation ownership.
    pub fn into_parts(self) -> (r: (ExecutableUseError, Option<ExecutableUseAdmissionOwner<G>>))
        ensures
            r == (self.spec_error(), self.spec_owner()),
    {
        (self.error, self.owner)
    }
}

} // verus!
