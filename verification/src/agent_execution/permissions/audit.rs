//! Mandatory permission evidence, independent of live event consumers.
use super::{ActionContext, PermissionResolution};
use crate::agent_execution::agents::AgentError;
use crate::domain::error::ExecutionError;
use crate::domain::ids::{ExecutionId, ExecutionSessionId, QuestionId, ReviewDeclineId};
use crate::domain::permissions::ReviewDecline;
use crate::domain::questions::{
    acceptable, AcceptedAnswer, AgentQuestion, AgentQuestionView, QuestionCancellation,
    QuestionChoice, QuestionRefusalReason, QuestionResponse,
};
use vstd::prelude::*;

verus! {

/// Local delivery stage of a decided answer or refusal.
#[derive(Debug, PartialEq, Eq)]
pub enum PermissionAnswerDelivery {
    /// Selected locally; not yet written.
    Selected,
    /// Written to the provider.
    Written,
    /// Writing failed.
    Failed(AgentError),
}

/// Attributed resolution with its delivery stage.
#[derive(Debug, PartialEq, Eq)]
pub struct PermissionAnswerRecord {
    resolution: PermissionResolution,
    delivery: PermissionAnswerDelivery,
}

impl PermissionAnswerRecord {
    /// Recorded resolution.
    pub closed spec fn spec_resolution(self) -> PermissionResolution {
        self.resolution
    }

    /// Recorded delivery stage.
    pub closed spec fn spec_delivery(self) -> PermissionAnswerDelivery {
        self.delivery
    }

    /// Pairs a resolution with its delivery stage.
    pub fn new(resolution: PermissionResolution, delivery: PermissionAnswerDelivery) -> (r: Self)
        ensures
            r.spec_resolution() == resolution,
            r.spec_delivery() == delivery,
    {
        PermissionAnswerRecord { resolution, delivery }
    }

    /// Provider context that resolved the review.
    pub fn session_id(&self) -> (r: &ExecutionSessionId)
        ensures
            *r == self.spec_resolution().spec_session_id(),
    {
        self.resolution.session_id()
    }

    /// Recorded resolution.
    pub fn resolution(&self) -> (r: &PermissionResolution)
        ensures
            *r == self.spec_resolution(),
    {
        &self.resolution
    }

    /// Recorded delivery stage.
    pub fn delivery(&self) -> (r: &PermissionAnswerDelivery)
        ensures
            *r == self.spec_delivery(),
    {
        &self.delivery
    }
}

/// A review declined by this binding before any host was offered it.
#[derive(Debug, PartialEq, Eq)]
pub struct ReviewDeclineRecord {
    session_id: ExecutionSessionId,
    execution_id: ExecutionId,
    id: ReviewDeclineId,
    decline: ReviewDecline,
    delivery: PermissionAnswerDelivery,
}

impl ReviewDeclineRecord {
    /// Owning provider context.
    pub closed spec fn spec_session_id(self) -> ExecutionSessionId {
        self.session_id
    }

    /// Owning execution.
    pub closed spec fn spec_execution_id(self) -> ExecutionId {
        self.execution_id
    }

    /// Declined review.
    pub closed spec fn spec_id(self) -> ReviewDeclineId {
        self.id
    }

    /// What was declared.
    pub closed spec fn spec_decline(self) -> ReviewDecline {
        self.decline
    }

    /// Delivery stage.
    pub closed spec fn spec_delivery(self) -> PermissionAnswerDelivery {
        self.delivery
    }

    /// Records a declined review and its delivery stage.
    pub fn new(
        session_id: ExecutionSessionId,
        execution_id: ExecutionId,
        id: ReviewDeclineId,
        decline: ReviewDecline,
        delivery: PermissionAnswerDelivery,
    ) -> (r: Self)
        ensures
            r.spec_session_id() == session_id,
            r.spec_execution_id() == execution_id,
            r.spec_id() == id,
            r.spec_decline() == decline,
            r.spec_delivery() == delivery,
    {
        ReviewDeclineRecord { session_id, execution_id, id, decline, delivery }
    }

    /// Owning provider context.
    pub fn session_id(&self) -> (r: &ExecutionSessionId)
        ensures
            *r == self.spec_session_id(),
    {
        &self.session_id
    }

    /// Owning execution.
    pub fn execution_id(&self) -> (r: &ExecutionId)
        ensures
            *r == self.spec_execution_id(),
    {
        &self.execution_id
    }

    /// Declined review.
    pub fn id(&self) -> (r: &ReviewDeclineId)
        ensures
            *r == self.spec_id(),
    {
        &self.id
    }

    /// What was declared.
    pub fn decline(&self) -> (r: &ReviewDecline)
        ensures
            *r == self.spec_decline(),
    {
        &self.decline
    }

    /// Delivery stage.
    pub fn delivery(&self) -> (r: &PermissionAnswerDelivery)
        ensures
            *r == self.spec_delivery(),
    {
        &self.delivery
    }
}

/// How one of the agent's questions was answered or ended.
#[derive(Debug, PartialEq, Eq)]
pub struct QuestionAnswerRecord {
    session_id: ExecutionSessionId,
    execution_id: ExecutionId,
    question_id: QuestionId,
    question: AgentQuestion,
    response: QuestionResponse,
    actor: Option<ActionContext>,
    delivery: PermissionAnswerDelivery,
}

impl QuestionAnswerRecord {
    /// Owning provider context.
    pub closed spec fn spec_session_id(self) -> ExecutionSessionId {
        self.session_id
    }

    /// Owning execution.
    pub closed spec fn spec_execution_id(self) -> ExecutionId {
        self.execution_id
    }

    /// The ask.
    pub closed spec fn spec_question_id(self) -> QuestionId {
        self.question_id
    }

    /// What was asked.
    pub closed spec fn spec_question(self) -> AgentQuestionView {
        self.question@
    }

    /// How it was resolved.
    pub closed spec fn spec_response(self) -> QuestionResponse {
        self.response
    }

    /// Explicit answerer, absent when the ask ended on its own.
    pub closed spec fn spec_actor(self) -> Option<ActionContext> {
        self.actor
    }

    /// Delivery stage.
    pub closed spec fn spec_delivery(self) -> PermissionAnswerDelivery {
        self.delivery
    }

    /// An explicit answer: `choices` must be an acceptable answer to `question`
    /// (else InvalidAnswer); `None` declines.
    pub fn chosen(
        session_id: ExecutionSessionId,
        execution_id: ExecutionId,
        question_id: QuestionId,
        question: AgentQuestion,
        choices: Option<Vec<QuestionChoice>>,
        actor: ActionContext,
        delivery: PermissionAnswerDelivery,
    ) -> (r: Result<Self, ExecutionError>)
        ensures
            r is Ok <==> (choices matches Some(c) ==> acceptable(question@, c@)),
            r matches Err(e) ==> e == ExecutionError::InvalidAnswer,
            r matches Ok(x) ==> {
                &&& x.spec_session_id() == session_id
                &&& x.spec_execution_id() == execution_id
                &&& x.spec_question_id() == question_id
                &&& x.spec_question() == question@
                &&& x.spec_actor() == Some(actor)
                &&& x.spec_delivery() == delivery
                &&& match choices {
                    Some(c) => x.spec_response() matches QuestionResponse::Answered(a) && a.spec_choices() == c@,
                    None => x.spec_response() is Declined,
                }
            },
    {
        let response = match choices {
            Some(c) => QuestionResponse::Answered(AcceptedAnswer::new(&question, c)?),
            None => QuestionResponse::Declined,
        };
        Ok(QuestionAnswerRecord {
            session_id,
            execution_id,
            question_id,
            question,
            response,
            actor: Some(actor),
            delivery,
        })
    }

    /// The same record with a later delivery stage.
    pub fn with_delivery(self, delivery: PermissionAnswerDelivery) -> (r: Self)
        ensures
            r.spec_session_id() == self.spec_session_id(),
            r.spec_execution_id() == self.spec_execution_id(),
            r.spec_question_id() == self.spec_question_id(),
            r.spec_question() == self.spec_question(),
            r.spec_response() == self.spec_response(),
            r.spec_actor() == self.spec_actor(),
            r.spec_delivery() == delivery,
    {
        QuestionAnswerRecord { delivery, ..self }
    }

    /// An ask that ended without an answer, with no answerer.
    pub fn ended(
        session_id: ExecutionSessionId,
        execution_id: ExecutionId,
        question_id: QuestionId,
        question: AgentQuestion,
        cause: QuestionCancellation,
        delivery: PermissionAnswerDelivery,
    ) -> (r: Self)
        ensures
            r.spec_session_id() == session_id,
            r.spec_execution_id() == execution_id,
            r.spec_question_id() == question_id,
            r.spec_question() == question@,
            r.spec_response() == QuestionResponse::Cancelled(cause),
            r.spec_actor() is None,
            r.spec_delivery() == delivery,
    {
        QuestionAnswerRecord {
            session_id,
            execution_id,
            question_id,
            question,
            response: QuestionResponse::Cancelled(cause),
            actor: None,
            delivery,
        }
    }

    /// Explicit answerer, absent when the ask ended on its own.
    pub fn actor(&self) -> (r: Option<&ActionContext>)
        ensures
            r is Some <==> self.spec_actor() is Some,
            r is Some ==> *r->0 == self.spec_actor()->0,
    {
        match &self.actor {
            Some(a) => Some(a),
            None => None,
        }
    }

    /// Owning provider context.
    pub fn session_id(&self) -> (r: &ExecutionSessionId)
        ensures
            *r == self.spec_session_id(),
    {
        &self.session_id
    }

    /// Owning execution.
    pub fn execution_id(&self) -> (r: &ExecutionId)
        ensures
            *r == self.spec_execution_id(),
    {
        &self.execution_id
    }

    /// The ask.
    pub fn question_id(&self) -> (r: &QuestionId)
        ensures
            *r == self.spec_question_id(),
    {
        &self.question_id
    }

    /// What was asked.
    pub fn question(&self) -> (r: &AgentQuestion)
        ensures
            r@ == self.spec_question(),
    {
        &self.question
    }

    /// How it was resolved.
    pub fn response(&self) -> (r: &QuestionResponse)
        ensures
            *r == self.spec_response(),
    {
        &self.response
    }

    /// Delivery stage.
    pub fn delivery(&self) -> (r: &PermissionAnswerDelivery)
        ensures
            *r == self.spec_delivery(),
    {
        &self.delivery
    }
}

/// An ask refused for lack of room, with the open load it would have joined.
#[derive(Debug, PartialEq, Eq)]
pub struct RefusedAsk {
    ask: AgentQuestion,
    open_asks: usize,
    open_cost: usize,
}

impl RefusedAsk {
    /// The refused ask.
    pub closed spec fn spec_ask(self) -> AgentQuestionView {
        self.ask@
    }

    /// Open asks at refusal.
    pub closed spec fn spec_open_asks(self) -> usize {
        self.open_asks
    }

    /// Open cost at refusal.
    pub closed spec fn spec_open_cost(self) -> usize {
        self.open_cost
    }

    /// Records the refused ask and the open load.
    pub fn new(ask: AgentQuestion, open_asks: usize, open_cost: usize) -> (r: Self)
        ensures
            r.spec_ask() == ask@,
            r.spec_open_asks() == open_asks,
            r.spec_open_cost() == open_cost,
    {
        RefusedAsk { ask, open_asks, open_cost }
    }

    /// The refused ask.
    pub fn ask(&self) -> (r: &AgentQuestion)
        ensures
            r@ == self.spec_ask(),
    {
        &self.ask
    }

    /// Open asks at refusal.
    pub fn open_asks(&self) -> (r: usize)
        ensures
            r == self.spec_open_asks(),
    {
        self.open_asks
    }

    /// Open cost at refusal.
    pub fn open_cost(&self) -> (r: usize)
        ensures
            r == self.spec_open_cost(),
    {
        self.open_cost
    }
}

/// Whether a refusal reason is about room, which requires the refused ask.
pub open spec fn refusal_for_room(reason: QuestionRefusalReason) -> bool {
    reason is TooManyOpen || reason is TooLarge
}

/// An ask this binding refused before offering it.
#[derive(Debug, PartialEq, Eq)]
pub struct QuestionRefusalRecord {
    session_id: ExecutionSessionId,
    execution_id: ExecutionId,
    id: QuestionId,
    reason: QuestionRefusalReason,
    refused: Option<RefusedAsk>,
    delivery: PermissionAnswerDelivery,
}

impl QuestionRefusalRecord {
    /// Owning provider context.
    pub closed spec fn spec_session_id(self) -> ExecutionSessionId {
        self.session_id
    }

    /// Owning execution.
    pub closed spec fn spec_execution_id(self) -> ExecutionId {
        self.execution_id
    }

    /// Refused ask identity.
    pub closed spec fn spec_id(self) -> QuestionId {
        self.id
    }

    /// Why it was refused.
    pub closed spec fn spec_reason(self) -> QuestionRefusalReason {
        self.reason
    }

    /// The refused ask, present exactly for refusals about room.
    pub closed spec fn spec_refused(self) -> Option<RefusedAsk> {
        self.refused
    }

    /// Delivery stage.
    pub closed spec fn spec_delivery(self) -> PermissionAnswerDelivery {
        self.delivery
    }

    /// Records a refusal; the refused ask must be present exactly when the reason is
    /// about room, else InvalidQuestionRefusal.
    pub fn new(
        session_id: ExecutionSessionId,
        execution_id: ExecutionId,
        id: QuestionId,
        reason: QuestionRefusalReason,
        refused: Option<RefusedAsk>,
        delivery: PermissionAnswerDelivery,
    ) -> (r: Result<Self, ExecutionError>)
        ensures
            r is Ok <==> (refusal_for_room(reason) == refused is Some),
            r matches Err(e) ==> e == ExecutionError::InvalidQuestionRefusal,
            r matches Ok(x) ==> x.spec_session_id() == session_id && x.spec_execution_id() == execution_id
                && x.spec_id() == id && x.spec_reason() == reason && x.spec_refused() == refused
                && x.spec_delivery() == delivery,
    {
        let for_room = match reason {
            QuestionRefusalReason::TooManyOpen | QuestionRefusalReason::TooLarge => true,
            _ => false,
        };
        if for_room != refused.is_some() {
            return Err(ExecutionError::InvalidQuestionRefusal);
        }
        Ok(QuestionRefusalRecord { session_id, execution_id, id, reason, refused, delivery })
    }

    /// The same record with a later delivery stage.
    pub fn with_delivery(self, delivery: PermissionAnswerDelivery) -> (r: Self)
        ensures
            r.spec_session_id() == self.spec_session_id(),
            r.spec_execution_id() == self.spec_execution_id(),
            r.spec_id() == self.spec_id(),
            r.spec_reason() == self.spec_reason(),
            r.spec_refused() == self.spec_refused(),
            r.spec_delivery() == delivery,
    {
        QuestionRefusalRecord { delivery, ..self }
    }

    /// Owning provider context.
    pub fn session_id(&self) -> (r: &ExecutionSessionId)
        ensures
            *r == self.spec_session_id(),
    {
        &self.session_id
    }

    /// Owning execution.
    pub fn execution_id(&self) -> (r: &ExecutionId)
        ensures
            *r == self.spec_execution_id(),
    {
        &self.execution_id
    }

    /// Refused ask identity.
    pub fn id(&self) -> (r: &QuestionId)
        ensures
            *r == self.spec_id(),
    {
        &self.id
    }

    /// Why it was refused.
    pub fn reason(&self) -> (r: QuestionRefusalReason)
        ensures
            r == self.spec_reason(),
    {
        self.reason
    }

    /// The refused ask, for refusals about room.
    pub fn refused(&self) -> (r: Option<&RefusedAsk>)
        ensures
            r is Some <==> self.spec_refused() is Some,
            r is Some ==> *r->0 == self.spec_refused()->0,
    {
        match &self.refused {
            Some(x) => Some(x),
            None => None,
        }
    }

    /// Delivery stage.
    pub fn delivery(&self) -> (r: &PermissionAnswerDelivery)
        ensures
            *r == self.spec_delivery(),
    {
        &self.delivery
    }
}

} // verus!
