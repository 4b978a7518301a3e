//! Owned, execution-correlated observations for storage and live projections.
use super::controller::{review_bytes, ExecutionController, MAX_RETAINED_BYTES};
use super::limits::{id_fits, validate_message_chunk, validate_observation_id, MAX_MESSAGE_CHUNK_BYTES};
use crate::agent_execution::agents::AgentError;
use crate::agent_execution::permissions::{CancellationOrigin, PermissionCancellation};
use crate::agent_execution::tools::{input_bytes, ToolReviewInput};
use crate::domain::executions::{chunk_bytes, ExecutionOutcome, MessageChunk};
use crate::domain::ids::{ExecutionId, ExecutionSessionId, PermissionId, QuestionId, ToolCallId};
use crate::domain::permissions::{
    options_sum, request_bytes, PermissionOption, PermissionOptions, PermissionRequest,
    PermissionRequestView, ReviewDeclineObservation,
};
use crate::domain::questions::{AgentQuestion, AgentQuestionView, QuestionChoice};
use crate::domain::tools::{
    observation_bytes, update_bytes, ObservationView, ToolCall, ToolCallUpdate, ToolObservation,
    UpdateView,
};
use crate::text::{blen, clamp, lemma_sat_add, lemma_sat_inner, sat, sat_add, str_len, text_len};
use vstd::layout::size_of;
use vstd::prelude::*;

verus! {

/// Application projections of domain observations, with tool review metadata.
#[derive(Debug, PartialEq, Eq)]
#[allow(inconsistent_fields)]
pub enum ExecutionUpdate {
    /// Provider-reported outcome after its output.
    Finished(ExecutionOutcome),
    /// Exact streamed text or thought fragment.
    Message(MessageChunk),
    /// Sparse tool observation; omitted fields keep their previous meaning.
    Tool(ToolCallUpdate),
    /// Once-only cancellation evidence.
    PermissionCancelled(PermissionCancellation),
    /// Runtime-owned refusal of a review that never became actionable.
    ReviewDeclined(ReviewDeclineObservation),
    /// Pending review with the exact offered choices and captured tool input.
    PermissionRequested {
        /// Review identity, scoped to this execution.
        id: PermissionId,
        /// Tool whose proposed action requires a decision.
        tool_id: ToolCallId,
        /// Tool state captured when the review was requested.
        observation: ToolObservation,
        /// Exact proposed action.
        input: ToolReviewInput,
        /// Validated choices offered for this request.
        options: PermissionOptions,
    },
    /// A question the agent asks the host.
    QuestionAsked {
        /// Ask identity.
        id: QuestionId,
        /// What is asked.
        question: AgentQuestion,
    },
    /// An ask stopped waiting, answered or withdrawn.
    QuestionClosed {
        /// Ask identity.
        id: QuestionId,
    },
}

/// The values a cancellation record retains.
pub type CancellationView = (ExecutionSessionId, PermissionRequestView, ToolReviewInput, CancellationOrigin);

/// Values retained by cancellation evidence.
pub open spec fn cancellation_view(c: PermissionCancellation) -> CancellationView {
    (c.spec_session_id(), c.spec_request(), c.spec_input(), c.spec_origin())
}

/// Mathematical value of an [`ExecutionUpdate`].
#[allow(inconsistent_fields)]
pub enum UpdateValue {
    /// Outcome.
    Finished(ExecutionOutcome),
    /// Fragment.
    Message(MessageChunk),
    /// Tool update.
    Tool(UpdateView),
    /// Cancellation evidence.
    PermissionCancelled(CancellationView),
    /// Declined review.
    ReviewDeclined(ReviewDeclineObservation),
    /// Requested review.
    PermissionRequested {
        /// Review identity.
        id: PermissionId,
        /// Tool identity.
        tool_id: ToolCallId,
        /// Captured tool state.
        observation: ObservationView,
        /// Reviewed input.
        input: ToolReviewInput,
        /// Offered choices.
        options: Seq<PermissionOption>,
    },
    /// Asked question.
    QuestionAsked {
        /// Ask identity.
        id: QuestionId,
        /// What is asked.
        question: AgentQuestionView,
    },
    /// Closed question.
    QuestionClosed {
        /// Ask identity.
        id: QuestionId,
    },
}

impl View for ExecutionUpdate {
    type V = UpdateValue;

    open spec fn view(&self) -> UpdateValue {
        match self {
            ExecutionUpdate::Finished(o) => UpdateValue::Finished(*o),
            ExecutionUpdate::Message(m) => UpdateValue::Message(*m),
            ExecutionUpdate::Tool(t) => UpdateValue::Tool(t@),
            ExecutionUpdate::PermissionCancelled(c) => UpdateValue::PermissionCancelled(cancellation_view(*c)),
            ExecutionUpdate::ReviewDeclined(d) => UpdateValue::ReviewDeclined(*d),
            ExecutionUpdate::PermissionRequested { id, tool_id, observation, input, options } => UpdateValue::PermissionRequested {
                id: *id,
                tool_id: *tool_id,
                observation: observation@,
                input: *input,
                options: options@,
            },
            ExecutionUpdate::QuestionAsked { id, question } => UpdateValue::QuestionAsked { id: *id, question: question@ },
            ExecutionUpdate::QuestionClosed { id } => UpdateValue::QuestionClosed { id: *id },
        }
    }
}

impl Clone for ExecutionUpdate {
    fn clone(&self) -> (r: Self)
        ensures
            r@ == self@,
    {
        match self {
            ExecutionUpdate::Finished(o) => ExecutionUpdate::Finished(*o),
            ExecutionUpdate::Message(m) => ExecutionUpdate::Message(m.clone()),
            ExecutionUpdate::Tool(t) => ExecutionUpdate::Tool(t.clone()),
            ExecutionUpdate::PermissionCancelled(c) => ExecutionUpdate::PermissionCancelled(c.clone()),
            ExecutionUpdate::ReviewDeclined(d) => ExecutionUpdate::ReviewDeclined(d.clone()),
            ExecutionUpdate::PermissionRequested { id, tool_id, observation, input, options } => ExecutionUpdate::PermissionRequested {
                id: id.clone(),
                tool_id: tool_id.clone(),
                observation: observation.clone(),
                input: input.clone(),
                options: options.clone(),
            },
            ExecutionUpdate::QuestionAsked { id, question } => ExecutionUpdate::QuestionAsked {
                id: id.clone(),
                question: question.clone(),
            },
            ExecutionUpdate::QuestionClosed { id } => ExecutionUpdate::QuestionClosed { id: id.clone() },
        }
    }
}

/// An immutable observation correlated to one execution.
#[derive(Debug, PartialEq, Eq)]
pub struct ExecutionEvent {
    execution_id: ExecutionId,
    update: ExecutionUpdate,
}

/// Mathematical value of an [`ExecutionEvent`].
pub struct EventValue {
    /// Producing execution.
    pub execution_id: ExecutionId,
    /// Observation.
    pub update: UpdateValue,
}

impl View for ExecutionEvent {
    type V = EventValue;

    closed spec fn view(&self) -> EventValue {
        EventValue { execution_id: self.execution_id, update: self.update@ }
    }
}

impl Clone for ExecutionEvent {
    fn clone(&self) -> (r: Self)
        ensures
            r@ == self@,
    {
        ExecutionEvent { execution_id: self.execution_id.clone(), update: self.update.clone() }
    }
}

/// Retained bytes of a question's text.
pub open spec fn question_bytes(q: AgentQuestionView) -> int {
    blen(q.prompt@) + choices_sum(q.choices)
}

/// Retained bytes of a list of choices.
pub open spec fn choices_sum(s: Seq<QuestionChoice>) -> int
    decreases s.len(),
{
    if s.len() == 0 {
        0
    } else {
        choices_sum(s.drop_last()) + blen(s.last().label@)
    }
}

proof fn lemma_choices_sum_nonneg(s: Seq<QuestionChoice>)
    ensures
        choices_sum(s) >= 0,
    decreases s.len(),
{
    if s.len() > 0 {
        lemma_choices_sum_nonneg(s.drop_last());
    }
}

/// Retained bytes of the actor a cancellation origin names.
pub open spec fn origin_bytes(o: CancellationOrigin) -> int {
    match o {
        CancellationOrigin::Client(a) => blen(a.spec_principal()) + blen(a.spec_surface()) + blen(a.spec_request()),
        _ => 0,
    }
}

/// Owned payload bytes of one observation.
pub open spec fn update_payload(u: UpdateValue) -> int {
    match u {
        UpdateValue::Finished(_) => 0,
        UpdateValue::Message(c) => chunk_bytes(c) as int,
        UpdateValue::Tool(t) => blen(t.id@) + update_bytes(t),
        UpdateValue::PermissionRequested { id, tool_id, observation, input, options } => blen(id@) + blen(tool_id@)
            + observation_bytes(observation) + input_bytes(input) + sat(options_sum(options)),
        UpdateValue::PermissionCancelled(c) => blen(c.0@) + size_of::<PermissionRequest>() + 2 * size_of::<usize>()
            + request_bytes(c.1) + input_bytes(c.2) + origin_bytes(c.3),
        UpdateValue::ReviewDeclined(d) => blen(d.id@) + match d.decline.declared {
            Some(s) => blen(s@) as int,
            None => 0,
        },
        UpdateValue::QuestionAsked { id, question } => blen(id@) + question_bytes(question),
        UpdateValue::QuestionClosed { id } => blen(id@) as int,
    }
}

/// Bytes one retained event accounts for: its slot, its identity and its payload.
pub open spec fn event_bytes(v: EventValue) -> usize {
    sat(size_of::<ExecutionEvent>() + blen(v.execution_id@) + update_payload(v.update))
}

/// Bytes a tool update would retain on first observation, counted as the event
/// admission check counts them.
pub open spec fn tool_event_bytes(execution: Seq<char>, u: UpdateView) -> int {
    blen(execution) + 2 * blen(u.id@) + update_bytes(u)
}

/// Why an event's payload is refused, in check order; `None` when admissible.
pub open spec fn payload_refusal(v: EventValue) -> Option<bool> {
    match v.update {
        UpdateValue::Finished(_) => None,
        UpdateValue::Message(c) => if chunk_bytes(c) > MAX_MESSAGE_CHUNK_BYTES { Some(false) } else { None },
        UpdateValue::Tool(t) => if !id_fits(t.id@) {
            Some(true)
        } else if sat(tool_event_bytes(v.execution_id@, t)) > MAX_RETAINED_BYTES {
            Some(false)
        } else {
            None
        },
        UpdateValue::PermissionRequested { id, tool_id, observation, input, options } => if !id_fits(id@) || !id_fits(tool_id@) {
            Some(true)
        } else if review_bytes(v.execution_id@, id@, tool_id@, input, options) > MAX_RETAINED_BYTES {
            Some(false)
        } else if sat(observation_bytes(observation) + blen(v.execution_id@) + 2 * blen(tool_id@)) > MAX_RETAINED_BYTES {
            Some(false)
        } else {
            None
        },
        UpdateValue::PermissionCancelled(c) => if !id_fits(c.1.id@) || !id_fits(c.1.tool_id@) {
            Some(true)
        } else if review_bytes(c.1.execution_id@, c.1.id@, c.1.tool_id@, c.2, c.1.options) > MAX_RETAINED_BYTES {
            Some(false)
        } else {
            None
        },
        UpdateValue::ReviewDeclined(_) => None,
        UpdateValue::QuestionAsked { id, question } => if !id_fits(id@) {
            Some(true)
        } else if sat(blen(id@) + question_bytes(question)) > MAX_RETAINED_BYTES {
            Some(false)
        } else {
            None
        },
        UpdateValue::QuestionClosed { id } => if !id_fits(id@) { Some(true) } else { None },
    }
}

fn question_payload(id: &QuestionId, q: &AgentQuestion) -> (r: usize)
    ensures
        r == sat(blen(id@) + question_bytes(q@)),
{
    let mut acc: usize = sat_add(id.byte_len(), text_len(&q.prompt));
    let mut i: usize = 0;
    while i < q.choices.len()
        invariant
            i <= q.choices.len(),
            acc == sat(blen(id@) + blen(q.prompt@) + choices_sum(q.choices@.take(i as int))),
        decreases q.choices.len() - i,
    {
        let b = text_len(&q.choices[i].label);
        proof {
            assert(q.choices@.take(i + 1).drop_last() == q.choices@.take(i as int));
            lemma_choices_sum_nonneg(q.choices@.take(i as int));
            lemma_sat_add(blen(id@) + blen(q.prompt@) + choices_sum(q.choices@.take(i as int)), b as int);
        }
        acc = sat_add(acc, b);
        i = i + 1;
    }
    assert(q.choices@.take(q.choices.len() as int) == q.choices@);
    acc
}

impl ExecutionEvent {
    /// Largest retained text or thought fragment (4 MiB).
    pub const MAX_MESSAGE_CHUNK_BYTES: usize = 4194304;

    /// Takes ownership of `update` and its producing `execution_id`.
    pub fn new(execution_id: ExecutionId, update: ExecutionUpdate) -> (r: Self)
        ensures
            r@ == (EventValue { execution_id, update: update@ }),
    {
        ExecutionEvent { execution_id, update }
    }

    /// Identity of the producing execution.
    pub fn execution_id(&self) -> (r: &ExecutionId)
        ensures
            *r == self@.execution_id,
    {
        &self.execution_id
    }

    /// The observation.
    pub fn update(&self) -> (r: &ExecutionUpdate)
        ensures
            r@ == self@.update,
    {
        &self.update
    }

    /// Consumes the envelope and returns its observation.
    pub fn into_update(self) -> (r: ExecutionUpdate)
        ensures
            r@ == self@.update,
    {
        self.update
    }

    /// Refuses an oversized payload before the event is copied or retained:
    /// InvalidInput for an identity over 256 bytes, Protocol for a fragment over
    /// 4 MiB or for a tool, review or question over 32 MiB.
    pub fn validate_payload_size(&self) -> (r: Result<(), AgentError>)
        ensures
            r is Ok <==> payload_refusal(self@) is None,
            r matches Err(e) ==> if payload_refusal(self@)->0 {
                e is InvalidInput
            } else {
                e is Protocol
            },
    {
        match &self.update {
            ExecutionUpdate::Finished(_) => Ok(()),
            ExecutionUpdate::Message(chunk) => validate_message_chunk(chunk),
            ExecutionUpdate::Tool(tool) => {
                validate_observation_id(tool.id.as_str())?;
                ExecutionController::validate_tool_payload(
                    clamp(
                        self.execution_id.byte_len() as u128 + 2 * (tool.id.byte_len() as u128)
                            + tool.payload_bytes() as u128,
                    ),
                )
            },
            ExecutionUpdate::PermissionRequested { id, tool_id, observation, input, options } => {
                ExecutionController::validate_review_payload(&self.execution_id, id, tool_id, input, options)?;
                ExecutionController::validate_tool_payload(
                    clamp(
                        observation.payload_bytes() as u128 + self.execution_id.byte_len() as u128 + 2
                            * (tool_id.byte_len() as u128),
                    ),
                )
            },
            ExecutionUpdate::PermissionCancelled(record) => {
                let request = record.request();
                ExecutionController::validate_review_payload(
                    request.execution_id(),
                    request.id(),
                    request.tool_id(),
                    record.input(),
                    request.options(),
                )?;
                Ok(())
            },
            ExecutionUpdate::ReviewDeclined(_) => Ok(()),
            ExecutionUpdate::QuestionAsked { id, question } => {
                validate_observation_id(id.as_str())?;
                ExecutionController::validate_review_bytes(question_payload(id, question))
            },
            ExecutionUpdate::QuestionClosed { id } => validate_observation_id(id.as_str()),
        }
    }

    /// Bytes this event retains: its slot, identity and owned payload.
    pub fn retained_bytes(&self) -> (r: usize)
        ensures
            r == event_bytes(self@),
    {
        let payload: u128 = match &self.update {
            ExecutionUpdate::Finished(_) => 0,
            ExecutionUpdate::Message(chunk) => chunk.payload_bytes() as u128,
            ExecutionUpdate::Tool(tool) => tool.id.byte_len() as u128 + tool.payload_bytes() as u128,
            ExecutionUpdate::PermissionRequested { id, tool_id, observation, input, options } => {
                id.byte_len() as u128 + tool_id.byte_len() as u128 + observation.payload_bytes() as u128
                    + input.payload_bytes() as u128 + options.payload_bytes() as u128
            },
            ExecutionUpdate::PermissionCancelled(record) => {
                let actor: u128 = match record.origin() {
                    CancellationOrigin::Client(a) => str_len(a.principal_id()) as u128 + str_len(a.surface_id()) as u128
                        + str_len(a.request_id()) as u128,
                    _ => 0,
                };
                record.session_id().byte_len() as u128 + core::mem::size_of::<PermissionRequest>() as u128
                    + 2 * (core::mem::size_of::<usize>() as u128) + record.request().payload_bytes() as u128
                    + record.input().payload_bytes() as u128 + actor
            },
            ExecutionUpdate::ReviewDeclined(observation) => {
                let declared: u128 = match observation.decline().declared() {
                    Some(s) => str_len(s) as u128,
                    None => 0,
                };
                observation.id().byte_len() as u128 + declared
            },
            ExecutionUpdate::QuestionAsked { id, question } => question_payload(id, question) as u128,
            ExecutionUpdate::QuestionClosed { id } => id.byte_len() as u128,
        };
        let slot = core::mem::size_of::<ExecutionEvent>();
        proof {
            if let ExecutionUpdate::QuestionAsked { id, question } = &self.update {
                lemma_choices_sum_nonneg(question@.choices);
                lemma_sat_inner(slot + blen(self.execution_id@), blen(id@) + question_bytes(question@));
            }
        }
        clamp(slot as u128 + self.execution_id.byte_len() as u128 + payload)
    }
}

} // verus!
