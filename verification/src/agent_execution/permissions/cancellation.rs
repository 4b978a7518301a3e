use super::ActionContext;
use crate::agent_execution::agents::AgentError;
use crate::agent_execution::tools::ToolReviewInput;
use crate::domain::ids::{ExecutionId, ExecutionSessionId, PermissionId};
use crate::domain::permissions::{
    PermissionCancellationReason, PermissionRequest, PermissionRequestView, PermissionStateView,
};
use vstd::prelude::*;

verus! {

/// The observed initiator. Provider and runtime actions never imply a human identity.
#[derive(Debug, PartialEq, Eq)]
pub enum CancellationOrigin {
    /// Explicit host-authorized action, including a guard acting as its own principal.
    Client(ActionContext),
    /// Withdrawal observed from the provider.
    Provider,
    /// Automatic SDK lifecycle cleanup, deadline, or failure.
    Runtime,
}

impl Clone for CancellationOrigin {
    fn clone(&self) -> (r: Self)
        ensures
            r == *self,
    {
        match self {
            CancellationOrigin::Client(a) => CancellationOrigin::Client(a.clone()),
            CancellationOrigin::Provider => CancellationOrigin::Provider,
            CancellationOrigin::Runtime => CancellationOrigin::Runtime,
        }
    }
}

/// Which causes each initiator may record: the provider only withdraws; a client
/// cancels with its own cause or closes the session; the runtime records every
/// lifecycle cause but never a provider withdrawal or a client's own cause.
pub open spec fn origin_permits(origin: CancellationOrigin, reason: PermissionCancellationReason) -> bool {
    match origin {
        CancellationOrigin::Provider => reason is ProviderWithdrawal,
        CancellationOrigin::Client(_) => reason is Custom || reason is SessionClosed,
        CancellationOrigin::Runtime => !(reason is ProviderWithdrawal || reason is Custom),
    }
}

impl CancellationOrigin {
    /// Refuses, with InvalidInput, a cause that contradicts this initiator.
    pub fn validate_reason(&self, reason: &PermissionCancellationReason) -> (r: Result<(), AgentError>)
        ensures
            r is Ok <==> origin_permits(*self, *reason),
            r matches Err(e) ==> e matches AgentError::InvalidInput(t) && t@
                == "cancellation cause contradicts its initiator"@,
    {
        let valid = match self {
            CancellationOrigin::Provider => match reason {
                PermissionCancellationReason::ProviderWithdrawal => true,
                _ => false,
            },
            CancellationOrigin::Client(_) => match reason {
                PermissionCancellationReason::Custom(_)
                | PermissionCancellationReason::SessionClosed => true,
                _ => false,
            },
            CancellationOrigin::Runtime => match reason {
                PermissionCancellationReason::ProviderWithdrawal
                | PermissionCancellationReason::Custom(_) => false,
                _ => true,
            },
        };
        if valid {
            Ok(())
        } else {
            Err(AgentError::InvalidInput("cancellation cause contradicts its initiator".to_owned()))
        }
    }
}

/// A cancelled review with its original input and lifecycle cause.
#[derive(Debug, PartialEq, Eq)]
pub struct PermissionCancellation {
    session_id: ExecutionSessionId,
    request: PermissionRequest,
    input: ToolReviewInput,
    origin: CancellationOrigin,
}

impl Clone for PermissionCancellation {
    fn clone(&self) -> (r: Self)
        ensures
            r.spec_session_id() == self.spec_session_id(),
            r.spec_request() == self.spec_request(),
            r.spec_input() == self.spec_input(),
            r.spec_origin() == self.spec_origin(),
    {
        PermissionCancellation {
            session_id: self.session_id.clone(),
            request: self.request.clone(),
            input: self.input.clone(),
            origin: self.origin.clone(),
        }
    }
}

impl PermissionCancellation {
    /// Owning provider context.
    pub closed spec fn spec_session_id(self) -> ExecutionSessionId {
        self.session_id
    }

    /// The cancelled review.
    pub closed spec fn spec_request(self) -> PermissionRequestView {
        self.request@
    }

    /// Original reviewed input.
    pub closed spec fn spec_input(self) -> ToolReviewInput {
        self.input
    }

    /// Initiator.
    pub closed spec fn spec_origin(self) -> CancellationOrigin {
        self.origin
    }

    /// Restores persisted evidence: the request must be cancelled with a cause that
    /// its `origin` may record, else InvalidInput.
    pub fn from_record(
        session_id: ExecutionSessionId,
        request: PermissionRequest,
        input: ToolReviewInput,
        origin: CancellationOrigin,
    ) -> (r: Result<Self, AgentError>)
        ensures
            r is Ok <==> (request@.state matches PermissionStateView::Cancelled { reason } && origin_permits(origin, reason)),
            r matches Ok(c) ==> c.spec_session_id() == session_id && c.spec_request() == request@
                && c.spec_input() == input && c.spec_origin() == origin,
            r matches Err(e) ==> e is InvalidInput,
    {
        match request.state() {
            PermissionStateView::Cancelled { reason } => {
                origin.validate_reason(reason)?;
            },
            _ => {
                return Err(
                    AgentError::InvalidInput("cancellation evidence requires a cancelled request".to_owned()),
                )
            },
        }
        Ok(PermissionCancellation { session_id, request, input, origin })
    }

    /// Live cancellation evidence produced by the execution controller.
    pub(crate) fn new(
        session_id: ExecutionSessionId,
        request: PermissionRequest,
        input: ToolReviewInput,
        origin: CancellationOrigin,
    ) -> (r: Self)
        ensures
            r.spec_session_id() == session_id,
            r.spec_request() == request@,
            r.spec_input() == input,
            r.spec_origin() == origin,
    {
        PermissionCancellation { session_id, request, input, origin }
    }

    /// Provider context that owned the cancelled review.
    pub fn session_id(&self) -> (r: &ExecutionSessionId)
        ensures
            *r == self.spec_session_id(),
    {
        &self.session_id
    }

    /// The cancelled review with its identities, options and cause.
    pub fn request(&self) -> (r: &PermissionRequest)
        ensures
            r@ == self.spec_request(),
    {
        &self.request
    }

    /// Original tool input captured when the review was requested.
    pub fn input(&self) -> (r: &ToolReviewInput)
        ensures
            *r == self.spec_input(),
    {
        &self.input
    }

    /// Verified actor or observed provider/runtime initiator.
    pub fn origin(&self) -> (r: &CancellationOrigin)
        ensures
            *r == self.spec_origin(),
    {
        &self.origin
    }
}

/// An explicit, host-authorized withdrawal of one pending review.
#[derive(Debug, PartialEq, Eq)]
pub struct PermissionCancellationRequest {
    /// Execution that owns the pending review.
    pub execution_id: ExecutionId,
    /// Pending permission identity within that execution.
    pub id: PermissionId,
    /// Caller-owned cause.
    pub reason: PermissionCancellationReason,
    /// Host-verified caller attribution.
    pub actor: ActionContext,
}

impl Clone for PermissionCancellationRequest {
    fn clone(&self) -> (r: Self)
        ensures
            r == *self,
    {
        PermissionCancellationRequest {
            execution_id: self.execution_id.clone(),
            id: self.id.clone(),
            reason: self.reason.clone(),
            actor: self.actor.clone(),
        }
    }
}

} // verus!
