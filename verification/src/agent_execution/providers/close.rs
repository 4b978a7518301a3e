//! Explicit causes for provider attachment shutdown.
use crate::agent_execution::permissions::{ActionContext, CancellationOrigin};
use crate::domain::permissions::PermissionCancellationReason;
use vstd::prelude::*;

verus! {

/// Why the application asks an adapter to retire its live attachment. The cause and
/// its initiator go into closure and pending-review evidence; none of these deletes
/// saved history or proves cleanup.
#[derive(Debug, PartialEq, Eq)]
pub enum SessionCloseRequest {
    /// A host-verified caller closed the attachment.
    Explicit(ActionContext),
    /// Execution, observation, validation or persistence failed while handles remain.
    ExecutionFailed,
    /// Attachment initialization or the idle lifecycle failed.
    SessionFailed,
    /// An operation exceeded its deadline.
    DeadlineExceeded,
    /// The owning event consumer was dropped.
    EventConsumerDropped,
    /// The final owning session handles were dropped.
    SessionHandlesDropped,
}

impl Clone for SessionCloseRequest {
    fn clone(&self) -> (r: Self)
        ensures
            r == *self,
    {
        match self {
            SessionCloseRequest::Explicit(a) => SessionCloseRequest::Explicit(a.clone()),
            SessionCloseRequest::ExecutionFailed => SessionCloseRequest::ExecutionFailed,
            SessionCloseRequest::SessionFailed => SessionCloseRequest::SessionFailed,
            SessionCloseRequest::DeadlineExceeded => SessionCloseRequest::DeadlineExceeded,
            SessionCloseRequest::EventConsumerDropped => SessionCloseRequest::EventConsumerDropped,
            SessionCloseRequest::SessionHandlesDropped => SessionCloseRequest::SessionHandlesDropped,
        }
    }
}

/// The lifecycle cause a close request records.
pub open spec fn close_reason(r: SessionCloseRequest) -> PermissionCancellationReason {
    match r {
        SessionCloseRequest::Explicit(_) => PermissionCancellationReason::SessionClosed,
        SessionCloseRequest::ExecutionFailed => PermissionCancellationReason::ExecutionFailed,
        SessionCloseRequest::SessionFailed => PermissionCancellationReason::SessionFailed,
        SessionCloseRequest::DeadlineExceeded => PermissionCancellationReason::DeadlineExceeded,
        SessionCloseRequest::EventConsumerDropped => PermissionCancellationReason::EventConsumerDropped,
        SessionCloseRequest::SessionHandlesDropped => PermissionCancellationReason::SessionHandlesDropped,
    }
}

impl SessionCloseRequest {
    /// The domain lifecycle cause of this request.
    pub fn reason(&self) -> (r: PermissionCancellationReason)
        ensures
            r == close_reason(*self),
    {
        match self {
            SessionCloseRequest::Explicit(_) => PermissionCancellationReason::session_closed(),
            SessionCloseRequest::ExecutionFailed => PermissionCancellationReason::execution_failed(),
            SessionCloseRequest::SessionFailed => PermissionCancellationReason::session_failed(),
            SessionCloseRequest::DeadlineExceeded => PermissionCancellationReason::deadline_exceeded(),
            SessionCloseRequest::EventConsumerDropped => PermissionCancellationReason::event_consumer_dropped(),
            SessionCloseRequest::SessionHandlesDropped => PermissionCancellationReason::session_handles_dropped(),
        }
    }

    /// The verified caller of an explicit close; the runtime otherwise.
    pub fn origin(&self) -> (r: CancellationOrigin)
        ensures
            r == match *self {
                SessionCloseRequest::Explicit(a) => CancellationOrigin::Client(a),
                _ => CancellationOrigin::Runtime,
            },
    {
        match self {
            SessionCloseRequest::Explicit(actor) => CancellationOrigin::Client(actor.clone()),
            _ => CancellationOrigin::Runtime,
        }
    }
}

/// Provider acknowledgement of an attempted mid-execution message.
#[derive(Clone, Copy, Debug, PartialEq, Eq, Structural)]
pub enum SteeringOutcome {
    /// The message belongs to the targeted invocation's output.
    Injected,
    /// The message was not consumed; only the host may schedule another invocation.
    PromptRequired,
}

/// What became of an agent's own record of a session it was asked to delete.
#[derive(Clone, Copy, Debug, PartialEq, Eq, Structural)]
pub enum ProviderSessionDeletion {
    /// Accepted; the adapter erases the session's record.
    Deleted,
    /// Accepted; the adapter archives the session instead of erasing it.
    Archived,
    /// Accepted; what the adapter does is not known.
    Acknowledged,
    /// Refused, and the agent's full session list no longer names the session.
    NotListed,
    /// The agent does not offer deletion; nothing was asked.
    NotSupported,
}

} // verus!
