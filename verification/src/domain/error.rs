//! Rejections raised by the execution-session aggregate and its value objects.
use vstd::prelude::*;

verus! {

/// Why a domain value or aggregate transition was refused.
#[derive(Clone, Copy, Debug, PartialEq, Eq, Structural)]
pub enum ExecutionError {
    /// An identity was empty.
    EmptyIdentity,
    /// Required text was empty or held only whitespace.
    BlankText,
    /// Another execution is still active.
    SessionBusy,
    /// The session has recorded its closure.
    SessionClosed,
    /// The execution identity was already admitted by this session.
    DuplicateExecution,
    /// The targeted execution is not the active one.
    ExecutionMismatch,
    /// The cause cannot describe a failed execution in the current session state.
    InvalidExecutionFailureReason,
    /// The cause cannot withdraw a single pending review.
    InvalidPermissionCancellationReason,
    /// The cause cannot close a session.
    InvalidSessionClosureReason,
    /// The permission identity was already used in this execution.
    DuplicatePermission,
    /// No pending review has this identity.
    PermissionNotPending,
    /// The chosen option was not offered by the review.
    OptionNotOffered,
    /// The review's tool has not been observed in this execution.
    ToolNotObserved,
    /// The offered options are empty, repeat an identity, or break the offer policy.
    InvalidOptions,
    /// A question refusal contradicts its reason.
    InvalidQuestionRefusal,
    /// Chosen answers are not among the asked question's choices.
    InvalidAnswer,
}

/// The diagnostic text of each rejection.
pub open spec fn message_text(e: ExecutionError) -> Seq<char> {
    match e {
        ExecutionError::EmptyIdentity => "identity is empty"@,
        ExecutionError::BlankText => "required text is blank"@,
        ExecutionError::SessionBusy => "another execution is active"@,
        ExecutionError::SessionClosed => "session is closed"@,
        ExecutionError::DuplicateExecution => "execution identity was already admitted"@,
        ExecutionError::ExecutionMismatch => "execution is not active"@,
        ExecutionError::InvalidExecutionFailureReason => "invalid execution failure reason"@,
        ExecutionError::InvalidPermissionCancellationReason => "invalid permission cancellation reason"@,
        ExecutionError::InvalidSessionClosureReason => "invalid session closure reason"@,
        ExecutionError::DuplicatePermission => "permission identity was already used"@,
        ExecutionError::PermissionNotPending => "permission is not pending"@,
        ExecutionError::OptionNotOffered => "option was not offered"@,
        ExecutionError::ToolNotObserved => "tool has not been observed"@,
        ExecutionError::InvalidOptions => "invalid permission options"@,
        ExecutionError::InvalidQuestionRefusal => "question refusal contradicts its reason"@,
        ExecutionError::InvalidAnswer => "answer does not match the question"@,
    }
}

impl ExecutionError {
    /// Human-readable diagnostic for this rejection.
    pub fn message(&self) -> (r: String)
        ensures
            r@ == message_text(*self),
    {
        match self {
            ExecutionError::EmptyIdentity => "identity is empty".to_owned(),
            ExecutionError::BlankText => "required text is blank".to_owned(),
            ExecutionError::SessionBusy => "another execution is active".to_owned(),
            ExecutionError::SessionClosed => "session is closed".to_owned(),
            ExecutionError::DuplicateExecution => "execution identity was already admitted".to_owned(),
            ExecutionError::ExecutionMismatch => "execution is not active".to_owned(),
            ExecutionError::InvalidExecutionFailureReason => "invalid execution failure reason".to_owned(),
            ExecutionError::InvalidPermissionCancellationReason => "invalid permission cancellation reason".to_owned(),
            ExecutionError::InvalidSessionClosureReason => "invalid session closure reason".to_owned(),
            ExecutionError::DuplicatePermission => "permission identity was already used".to_owned(),
            ExecutionError::PermissionNotPending => "permission is not pending".to_owned(),
            ExecutionError::OptionNotOffered => "option was not offered".to_owned(),
            ExecutionError::ToolNotObserved => "tool has not been observed".to_owned(),
            ExecutionError::InvalidOptions => "invalid permission options".to_owned(),
            ExecutionError::InvalidQuestionRefusal => "question refusal contradicts its reason".to_owned(),
            ExecutionError::InvalidAnswer => "answer does not match the question".to_owned(),
        }
    }
}

} // verus!
