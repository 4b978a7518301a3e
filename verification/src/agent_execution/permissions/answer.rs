use super::{ActionContext, ApprovalAttribution};
use crate::agent_execution::agents::AgentError;
use crate::domain::ids::{ExecutionId, PermissionId, PermissionOptionId, QuestionId};
use crate::domain::questions::QuestionChoice;
use vstd::prelude::*;

verus! {

/// Whether an answer failure happened before or after the review was consumed.
#[derive(Clone, Copy, Debug, PartialEq, Eq, Structural)]
pub enum PermissionSelectionState {
    /// The review was rejected before selection and remains pending.
    Pending,
    /// The option was selected; audit or delivery failed afterwards.
    Consumed,
    /// Neither state could be proven.
    Unknown,
}

/// Failed answer with its selection state kept apart from the diagnostic.
#[derive(Debug, PartialEq, Eq)]
pub struct PermissionAnswerFailure {
    error: AgentError,
    selection: PermissionSelectionState,
}

impl PermissionAnswerFailure {
    /// Diagnostic.
    pub closed spec fn spec_error(self) -> AgentError {
        self.error
    }

    /// Selection state.
    pub closed spec fn spec_selection(self) -> PermissionSelectionState {
        self.selection
    }

    /// Pairs a diagnostic with the known selection state.
    pub fn new(error: AgentError, selection: PermissionSelectionState) -> (r: Self)
        ensures
            r.spec_error() == error,
            r.spec_selection() == selection,
    {
        PermissionAnswerFailure { error, selection }
    }

    /// Diagnostic failure; never infer review state from it.
    pub fn error(&self) -> (r: &AgentError)
        ensures
            *r == self.spec_error(),
    {
        &self.error
    }

    /// Whether the reviewed option was selected.
    pub fn selection(&self) -> (r: PermissionSelectionState)
        ensures
            r == self.spec_selection(),
    {
        self.selection
    }

    /// Splits the diagnostic from the selection state.
    pub fn into_parts(self) -> (r: (AgentError, PermissionSelectionState))
        ensures
            r.0 == self.spec_error(),
            r.1 == self.spec_selection(),
    {
        (self.error, self.selection)
    }
}

/// Host-authorized selection of one offered option for an exact pending review.
#[derive(Debug, PartialEq, Eq)]
pub struct PermissionAnswer {
    /// Host-verified actor and decision basis.
    pub attribution: ApprovalAttribution,
    /// Execution that owns the review.
    pub execution_id: ExecutionId,
    /// Pending permission identity within that execution.
    pub id: PermissionId,
    /// Exact offered option identity.
    pub option_id: PermissionOptionId,
}

impl Clone for PermissionAnswer {
    fn clone(&self) -> (r: Self)
        ensures
            r == *self,
    {
        PermissionAnswer {
            attribution: self.attribution.clone(),
            execution_id: self.execution_id.clone(),
            id: self.id.clone(),
            option_id: self.option_id.clone(),
        }
    }
}

/// What a host answers one of the agent's own questions with.
#[derive(Debug, PartialEq, Eq)]
pub struct QuestionAnswer {
    /// Host-verified caller who answered.
    pub actor: ActionContext,
    /// Execution that owns the ask.
    pub execution_id: ExecutionId,
    /// The ask being answered.
    pub id: QuestionId,
    /// What was chosen, or `None` to answer nothing.
    pub choices: Option<Vec<QuestionChoice>>,
}

} // verus!
