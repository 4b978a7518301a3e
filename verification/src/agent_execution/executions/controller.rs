//! Adapter coordination for validated execution state and attributed evidence.
use super::audit::{ExecutionAuditRecord, SessionClosureRecord};
use super::events::{
    cancellation_view, payload_refusal, CancellationView, EventValue, ExecutionEvent,
    ExecutionUpdate, UpdateValue,
};
use super::limits::{id_fits, validate_message_chunk, validate_observation_id, MAX_MESSAGE_CHUNK_BYTES};
use crate::agent_execution::agents::AgentError;
use crate::agent_execution::permissions::{
    origin_permits, CancellationOrigin, PermissionAnswer, PermissionCancellation,
    PermissionCancellationRequest, PermissionResolution,
};
use crate::agent_execution::tools::{input_bytes, ToolReviewInput};
use crate::domain::error::ExecutionError;
use crate::domain::executions::{chunk_bytes, ExecutionOutcome, MessageChunk};
use crate::domain::ids::{ExecutionId, ExecutionSessionId, PermissionId, PermissionOptionId, QuestionId, ToolCallId};
use crate::domain::permissions::{
    answered_state, closes_session, fails_execution, options_sum, withdraws_single_review,
    PermissionCancellationReason, PermissionOption, PermissionOptions, PermissionRequest,
    PermissionRequestView, PermissionStateView,
};
use crate::domain::questions::AgentQuestion;
use crate::domain::session::{
    was_admitted, cancel_all, cancelled_list, finish_cause, request_views, has_permission, has_tool, is_active, is_pending, observe,
    permission_pos, prior_observation, session_wf, tool_pos, with_state, ExecutionFinish,
    ExecutionSession, SessionClosure, SessionView,
};
use crate::domain::tools::{merged, tool_charge, ToolCallUpdate, ToolCallView, UpdateView};
use crate::sums::{lemma_sum_bounds, lemma_sum_push, lemma_sum_update, lemma_sum_zero, seq_sum};
use crate::text::{blen, clamp, sat};
use vstd::prelude::*;

verus! {

/// Largest number of tools observed in one execution.
pub const MAX_TOOLS: usize = 4096;

/// Largest number of reviews pending at once.
pub const MAX_PERMISSIONS: usize = 128;

/// Largest number of reviews admitted in one execution, resolved ones included.
pub const MAX_EXECUTION_PERMISSIONS: usize = 4096;

/// Largest retained bytes of tools, and separately of pending reviews (32 MiB).
pub const MAX_RETAINED_BYTES: usize = 33554432;

/// Bytes one pending review retains: its input, its offered choices, and its
/// identities (the execution and tool once, the review three times).
pub open spec fn review_bytes(
    execution: Seq<char>,
    id: Seq<char>,
    tool: Seq<char>,
    input: ToolReviewInput,
    options: Seq<PermissionOption>,
) -> usize {
    sat(input_bytes(input) + sat(options_sum(options)) + blen(execution) + 3 * blen(id) + blen(tool))
}

/// Retained input and charged bytes of a pending review; `None` once resolved.
pub type ReviewSlot = Option<(ToolReviewInput, usize)>;

/// Charged bytes of a slot.
pub open spec fn slot_charge() -> spec_fn(ReviewSlot) -> int {
    |s: ReviewSlot|
        match s {
            Some(x) => x.1 as int,
            None => 0,
        }
}

/// One for a pending slot.
pub open spec fn slot_open() -> spec_fn(ReviewSlot) -> int {
    |s: ReviewSlot|
        if s is Some {
            1
        } else {
            0
        }
}

/// Charged bytes of a tool of the execution with text `e`.
pub open spec fn tool_weight(e: Seq<char>) -> spec_fn(ToolCallView) -> int {
    |t: ToolCallView| tool_charge(e, t.id@, t.observation) as int
}

/// Text of the active execution, empty when idle.
pub open spec fn active_text(v: SessionView) -> Seq<char> {
    match v.active {
        Some(a) => a@,
        None => Seq::empty(),
    }
}

/// Mathematical value of an [`ExecutionController`].
pub struct ControllerView {
    /// The live session.
    pub session: SessionView,
    /// Review inputs, aligned with the session's reviews.
    pub reviews: Seq<ReviewSlot>,
    /// Number of pending reviews.
    pub pending: usize,
    /// Retained tool bytes.
    pub tool_bytes: usize,
    /// Retained review bytes.
    pub review_bytes: usize,
}

/// Structural validity: review inputs align with pending reviews, and both budgets
/// equal the sums they account for and stay within 32 MiB.
pub open spec fn controller_wf(v: ControllerView) -> bool {
    &&& session_wf(v.session)
    &&& v.reviews.len() == v.session.permissions.len()
    &&& forall|i: int|
        0 <= i < v.reviews.len() ==> (#[trigger] v.reviews[i] is Some <==> v.session.permissions[i].state is Pending)
    &&& forall|i: int| 0 <= i < v.reviews.len() ==> slot_charge()(#[trigger] v.reviews[i]) >= 0
    &&& v.pending == seq_sum(v.reviews, slot_open())
    &&& v.review_bytes == seq_sum(v.reviews, slot_charge())
    &&& v.review_bytes <= MAX_RETAINED_BYTES
    &&& v.tool_bytes == seq_sum(v.session.tools, tool_weight(active_text(v.session)))
    &&& v.tool_bytes <= MAX_RETAINED_BYTES
}

/// Whether an execution with identity `id` may begin: the session is open and idle
/// and has never admitted `id`.
pub open spec fn can_begin(v: ControllerView, id: Seq<char>) -> bool {
    !v.session.closed && v.session.active is None && !was_admitted(v.session.admitted, id)
}

/// Kinds of refusal the controller reports.
#[derive(Clone, Copy, Debug, PartialEq, Eq, Structural)]
pub enum Refusal {
    /// [`AgentError::InvalidInput`].
    InvalidInput,
    /// [`AgentError::Protocol`].
    Protocol,
    /// [`AgentError::Closed`].
    Closed,
    /// [`AgentError::Busy`].
    Busy,
    /// [`AgentError::StalePermission`].
    StalePermission,
}

/// Whether `e` is a refusal of kind `k`.
pub open spec fn refused_as(e: AgentError, k: Refusal) -> bool {
    match k {
        Refusal::InvalidInput => e is InvalidInput,
        Refusal::Protocol => e is Protocol,
        Refusal::Closed => e is Closed,
        Refusal::Busy => e is Busy,
        Refusal::StalePermission => e is StalePermission,
    }
}

/// How a domain rejection is reported.
pub open spec fn domain_refusal(d: ExecutionError) -> Refusal {
    match d {
        ExecutionError::SessionBusy => Refusal::Busy,
        ExecutionError::SessionClosed => Refusal::Closed,
        ExecutionError::InvalidExecutionFailureReason
        | ExecutionError::InvalidPermissionCancellationReason
        | ExecutionError::InvalidSessionClosureReason
        | ExecutionError::DuplicateExecution => Refusal::InvalidInput,
        _ => Refusal::Protocol,
    }
}

/// Reports a domain rejection as an agent error.
pub fn domain_error(error: ExecutionError) -> (r: AgentError)
    ensures
        refused_as(r, domain_refusal(error)),
{
    match error {
        ExecutionError::SessionBusy => AgentError::Busy,
        ExecutionError::SessionClosed => AgentError::Closed,
        ExecutionError::InvalidExecutionFailureReason
        | ExecutionError::InvalidPermissionCancellationReason
        | ExecutionError::InvalidSessionClosureReason
        | ExecutionError::DuplicateExecution => AgentError::InvalidInput(error.message()),
        _ => AgentError::Protocol(error.message()),
    }
}

/// Bytes the active execution retains for tool `id` now.
pub open spec fn tool_bytes_now(v: ControllerView, id: Seq<char>) -> int {
    if has_tool(v.session.tools, id) {
        tool_charge(active_text(v.session), id, v.session.tools[tool_pos(v.session.tools, id)].observation) as int
    } else {
        0
    }
}

/// Retained tool bytes after observing `u` in `execution`.
pub open spec fn tool_total_after(v: ControllerView, execution: Seq<char>, u: UpdateView) -> int {
    v.tool_bytes - tool_bytes_now(v, u.id@) + tool_charge(
        execution,
        u.id@,
        merged(prior_observation(v.session.tools, u.id@), u.fields),
    )
}

/// Why observing `u` in `execution` is refused, in check order.
pub open spec fn tool_refusal(v: ControllerView, execution: Seq<char>, u: UpdateView) -> Option<Refusal> {
    if !id_fits(u.id@) {
        Some(Refusal::InvalidInput)
    } else if !is_active(v.session, execution) {
        Some(Refusal::InvalidInput)
    } else if !has_tool(v.session.tools, u.id@) && v.session.tools.len() >= MAX_TOOLS {
        Some(Refusal::Protocol)
    } else if v.session.closed {
        Some(Refusal::Closed)
    } else if tool_total_after(v, execution, u) > MAX_RETAINED_BYTES {
        Some(Refusal::Protocol)
    } else {
        None
    }
}

/// The controller after observing `u`.
pub open spec fn after_tool(v: ControllerView, execution: Seq<char>, u: UpdateView) -> ControllerView {
    ControllerView {
        session: SessionView { tools: observe(v.session.tools, u), ..v.session },
        tool_bytes: tool_total_after(v, execution, u) as usize,
        ..v
    }
}

/// Why admitting a review is refused, in check order.
pub open spec fn review_refusal(
    v: ControllerView,
    execution: Seq<char>,
    id: Seq<char>,
    tool: UpdateView,
    input: ToolReviewInput,
    options: Seq<PermissionOption>,
) -> Option<Refusal> {
    let rb = review_bytes(execution, id, tool.id@, input, options);
    if !is_active(v.session, execution) {
        Some(Refusal::InvalidInput)
    } else if !id_fits(id) {
        Some(Refusal::InvalidInput)
    } else if v.session.permissions.len() >= MAX_EXECUTION_PERMISSIONS {
        Some(Refusal::Protocol)
    } else if v.pending >= MAX_PERMISSIONS {
        Some(Refusal::Protocol)
    } else if !id_fits(tool.id@) {
        Some(Refusal::InvalidInput)
    } else if rb > MAX_RETAINED_BYTES {
        Some(Refusal::Protocol)
    } else if v.review_bytes + rb > MAX_RETAINED_BYTES {
        Some(Refusal::Protocol)
    } else if v.session.closed {
        Some(Refusal::Closed)
    } else if has_permission(v.session.permissions, id) {
        Some(Refusal::Protocol)
    } else {
        tool_refusal(v, execution, tool)
    }
}

/// Whether the slots `rs` hold an input exactly for the pending reviews of `ps`.
pub open spec fn aligned(ps: Seq<PermissionRequestView>, rs: Seq<ReviewSlot>) -> bool {
    &&& rs.len() == ps.len()
    &&& forall|i: int| 0 <= i < rs.len() ==> (#[trigger] rs[i] is Some <==> ps[i].state is Pending)
}

/// Inputs of the pending slots of `rs`, in order.
pub open spec fn slot_inputs(rs: Seq<ReviewSlot>) -> Seq<ToolReviewInput>
    decreases rs.len(),
{
    if rs.len() == 0 {
        Seq::empty()
    } else {
        let rest = slot_inputs(rs.drop_last());
        match rs.last() {
            Some(x) => rest.push(x.0),
            None => rest,
        }
    }
}

/// Cancellation evidence for every pending review of `ps`, in admission order:
/// the review cancelled for `reason`, paired with its retained input.
pub open spec fn released(
    ps: Seq<PermissionRequestView>,
    rs: Seq<ReviewSlot>,
    reason: PermissionCancellationReason,
    session: ExecutionSessionId,
    origin: CancellationOrigin,
) -> Seq<CancellationView> {
    let cs = cancelled_list(ps, reason);
    let ins = slot_inputs(rs);
    Seq::new(cs.len(), |k: int| (session, cs[k], ins[k], origin))
}

proof fn lemma_aligned_counts(ps: Seq<PermissionRequestView>, rs: Seq<ReviewSlot>, reason: PermissionCancellationReason)
    requires
        aligned(ps, rs),
    ensures
        cancelled_list(ps, reason).len() == slot_inputs(rs).len(),
    decreases ps.len(),
{
    if ps.len() > 0 {
        assert(aligned(ps.drop_last(), rs.drop_last())) by {
            assert forall|i: int| 0 <= i < rs.len() - 1 implies (#[trigger] rs.drop_last()[i] is Some
                <==> ps.drop_last()[i].state is Pending) by {
                assert(rs.drop_last()[i] == rs[i]);
            }
        }
        lemma_aligned_counts(ps.drop_last(), rs.drop_last(), reason);
        assert(rs.last() is Some <==> ps.last().state is Pending) by {
            assert(rs[rs.len() - 1] is Some <==> ps[ps.len() - 1].state is Pending);
        }
    }
}

/// Whether `records` are cancellation records with exactly the values `views`.
pub open spec fn cancellations_are(records: Seq<ExecutionAuditRecord>, views: Seq<CancellationView>) -> bool {
    &&& records.len() == views.len()
    &&& forall|k: int|
        0 <= k < records.len() ==> (#[trigger] records[k] matches ExecutionAuditRecord::Cancelled(c)
            && cancellation_view(c) == views[k])
}

/// Whether `cs` carry exactly the values `views`.
pub open spec fn cancellation_values(cs: Seq<PermissionCancellation>, views: Seq<CancellationView>) -> bool {
    &&& cs.len() == views.len()
    &&& forall|k: int| 0 <= k < cs.len() ==> cancellation_view(#[trigger] cs[k]) == views[k]
}

/// The slots after every pending review is released.
pub open spec fn all_released(rs: Seq<ReviewSlot>) -> Seq<ReviewSlot> {
    Seq::new(rs.len(), |i: int| None)
}

/// Ephemeral execution coordination shared by session adapters: pairs review input
/// with permissions, bounds retained tool and review bytes, and projects accepted
/// observations. It owns no transport or durable history.
#[derive(Debug)]
pub struct ExecutionController {
    session: ExecutionSession,
    reviews: Vec<ReviewSlot>,
    pending_reviews: usize,
    retained_tool_bytes: usize,
    retained_review_bytes: usize,
}

impl View for ExecutionController {
    type V = ControllerView;

    closed spec fn view(&self) -> ControllerView {
        ControllerView {
            session: self.session@,
            reviews: self.reviews@,
            pending: self.pending_reviews,
            tool_bytes: self.retained_tool_bytes,
            review_bytes: self.retained_review_bytes,
        }
    }
}

impl ExecutionController {
    /// Structural validity of this controller.
    pub open spec fn wf(&self) -> bool {
        controller_wf(self@)
    }

    /// An idle live controller for provider context `id`, with no tools, reviews, or
    /// retained bytes.
    pub fn new(id: ExecutionSessionId) -> (r: Self)
        ensures
            r.wf(),
            r@.session.id == id,
            !r@.session.closed,
            r@.session.active is None,
            r@.session.admitted.len() == 0,
            r@.reviews.len() == 0,
            r@.tool_bytes == 0,
            r@.review_bytes == 0,
    {
        let r = ExecutionController {
            session: ExecutionSession::new(id),
            reviews: Vec::new(),
            pending_reviews: 0,
            retained_tool_bytes: 0,
            retained_review_bytes: 0,
        };
        r
    }

    /// The live session aggregate.
    pub fn session(&self) -> (r: &ExecutionSession)
        ensures
            r@ == self@.session,
    {
        &self.session
    }

    /// Retained bytes of observed tools in the active execution.
    pub fn retained_tool_bytes(&self) -> (r: usize)
        ensures
            r == self@.tool_bytes,
    {
        self.retained_tool_bytes
    }

    /// Retained bytes of pending reviews.
    pub fn retained_review_bytes(&self) -> (r: usize)
        ensures
            r == self@.review_bytes,
    {
        self.retained_review_bytes
    }

    /// Whether closure has been recorded.
    pub fn is_closed(&self) -> (r: bool)
        ensures
            r == self@.session.closed,
    {
        self.session.is_closed()
    }

    /// Identity of the provider context.
    pub fn id(&self) -> (r: &ExecutionSessionId)
        ensures
            *r == self@.session.id,
    {
        self.session.id()
    }

    /// The execution that owns the session now, if any.
    pub fn active_execution_id(&self) -> (r: Option<&ExecutionId>)
        ensures
            r is Some <==> self@.session.active is Some,
            r is Some ==> *r->0 == self@.session.active->0,
    {
        self.session.active_execution()
    }

    fn check_execution(&self, execution: &ExecutionId) -> (r: Result<(), AgentError>)
        ensures
            r is Ok <==> is_active(self@.session, execution@),
            r matches Err(e) ==> e is InvalidInput,
    {
        if !self.session.is_active(execution) {
            return Err(AgentError::InvalidInput("event targets a different or inactive execution".to_owned()));
        }
        Ok(())
    }

    /// Checks the target of an event projection: with no execution active the
    /// event itself is out of protocol; with another one active it names a stale
    /// execution.
    fn check_event_target(&self, execution: &ExecutionId) -> (r: Result<(), AgentError>)
        ensures
            r is Ok <==> is_active(self@.session, execution@),
            r matches Err(e) ==> if self@.session.active is None {
                e is Protocol
            } else {
                e is InvalidInput
            },
    {
        if self.session.active_execution().is_none() {
            return Err(AgentError::Protocol("no execution is active".to_owned()));
        }
        self.check_execution(execution)
    }

    /// Admits `id` as the sole active execution. Returns Closed for a closed
    /// session, Busy while another execution is active, and InvalidInput for an
    /// identity this controller admitted before; a refusal changes nothing.
    pub fn begin_execution(&mut self, id: ExecutionId) -> (r: Result<(), AgentError>)
        requires
            old(self).wf(),
        ensures
            final(self).wf(),
            r is Ok <==> can_begin(old(self)@, id@),
            r is Ok ==> final(self)@ == (ControllerView {
                session: SessionView {
                    active: Some(id),
                    admitted: old(self)@.session.admitted.push(id),
                    ..old(self)@.session
                },
                tool_bytes: 0,
                ..old(self)@
            }),
            r matches Err(e) ==> final(self)@ == old(self)@ && (if old(self)@.session.closed {
                e is Closed
            } else if old(self)@.session.active is Some {
                e is Busy
            } else {
                e is InvalidInput
            }),
    {
        match self.session.begin_execution(id) {
            Err(e) => return Err(domain_error(e)),
            Ok(()) => {},
        }
        self.retained_tool_bytes = 0;
        Ok(())
    }

    /// Refuses, with Protocol, a tool total above 32 MiB.
    pub fn validate_tool_payload(bytes: usize) -> (r: Result<(), AgentError>)
        ensures
            r is Ok <==> bytes <= MAX_RETAINED_BYTES,
            r matches Err(e) ==> e is Protocol,
    {
        if bytes > MAX_RETAINED_BYTES {
            return Err(AgentError::Protocol("tool retention limit exceeded".to_owned()));
        }
        Ok(())
    }

    proof fn lemma_tool_bytes_now(&self, id: Seq<char>)
        requires
            self.wf(),
        ensures
            0 <= tool_bytes_now(self@, id) <= self@.tool_bytes,
    {
        let v = self@;
        let w = tool_weight(active_text(v.session));
        lemma_sum_bounds(v.session.tools, w);
        if has_tool(v.session.tools, id) {
            let i = tool_pos(v.session.tools, id);
            assert(w(v.session.tools[i]) <= seq_sum(v.session.tools, w));
        }
    }

    /// Checks, without change, whether observing `update` in `execution` fits; returns
    /// the retained tool total it would leave.
    pub fn validate_tool_retention(&self, execution: &ExecutionId, update: &ToolCallUpdate) -> (r: Result<
        usize,
        AgentError,
    >)
        requires
            self.wf(),
        ensures
            r is Ok <==> tool_refusal(self@, execution@, update@) is None,
            r matches Ok(n) ==> n == tool_total_after(self@, execution@, update@),
            r matches Err(e) ==> refused_as(e, tool_refusal(self@, execution@, update@)->0),
    {
        validate_observation_id(update.id.as_str())?;
        self.check_execution(execution)?;
        let previous = self.session.tool(&update.id);
        if previous.is_none() && self.session.tool_count() >= MAX_TOOLS {
            return Err(AgentError::Protocol("tool count limit exceeded".to_owned()));
        }
        let old_bytes = self.session.tool_payload_bytes(&update.id);
        let new_bytes = match self.session.tool_payload_bytes_after(execution, update) {
            Ok(n) => n,
            Err(e) => return Err(domain_error(e)),
        };
        proof {
            self.lemma_tool_bytes_now(update.id@);
            assert(old_bytes == tool_bytes_now(self@, update.id@));
        }
        let total = self.retained_tool_bytes.saturating_sub(old_bytes).saturating_add(new_bytes);
        Self::validate_tool_payload(total)?;
        Ok(total)
    }

    proof fn lemma_observe_total(&self, execution: &ExecutionId, update: UpdateView)
        requires
            self.wf(),
            is_active(self@.session, execution@),
        ensures
            seq_sum(observe(self@.session.tools, update), tool_weight(active_text(self@.session)))
                == tool_total_after(self@, execution@, update),
    {
        let v = self@;
        let e = active_text(v.session);
        let w = tool_weight(e);
        let tools = v.session.tools;
        if has_tool(tools, update.id@) {
            let i = tool_pos(tools, update.id@);
            let t = ToolCallView { id: tools[i].id, observation: merged(tools[i].observation, update.fields) };
            lemma_sum_update(tools, w, i, t);
        } else {
            let t = ToolCallView { id: update.id, observation: merged(crate::domain::tools::empty_observation(), update.fields) };
            lemma_sum_push(tools, w, t);
        }
    }

    fn observe_tool(&mut self, execution: &ExecutionId, update: ToolCallUpdate) -> (r: Result<(), AgentError>)
        requires
            old(self).wf(),
        ensures
            final(self).wf(),
            r is Ok <==> tool_refusal(old(self)@, execution@, update@) is None,
            r is Ok ==> final(self)@ == after_tool(old(self)@, execution@, update@),
            r matches Err(e) ==> final(self)@ == old(self)@ && refused_as(
                e,
                tool_refusal(old(self)@, execution@, update@)->0,
            ),
    {
        let total = self.validate_tool_retention(execution, &update)?;
        proof {
            self.lemma_observe_total(execution, update@);
        }
        let ghost u = update@;
        match self.session.observe_tool(execution, update) {
            Err(e) => return Err(domain_error(e)),
            Ok(()) => {},
        }
        self.retained_tool_bytes = total;
        Ok(())
    }

    /// Applies sparse `update` to the active execution's tool and returns its event.
    /// Refuses an oversized tool identity or an inactive target with InvalidInput, a
    /// closed session with Closed, and an exceeded tool count or 32 MiB tool budget
    /// with Protocol; a refusal changes nothing.
    pub fn tool_event(&mut self, execution: &ExecutionId, update: ToolCallUpdate) -> (r: Result<
        ExecutionEvent,
        AgentError,
    >)
        requires
            old(self).wf(),
        ensures
            final(self).wf(),
            r is Ok <==> tool_refusal(old(self)@, execution@, update@) is None,
            r matches Ok(ev) ==> final(self)@ == after_tool(old(self)@, execution@, update@)
                && ev@ == (EventValue { execution_id: *execution, update: UpdateValue::Tool(update@) }),
            r matches Err(e) ==> final(self)@ == old(self)@ && refused_as(
                e,
                tool_refusal(old(self)@, execution@, update@)->0,
            ),
    {
        let copy = update.clone();
        self.observe_tool(execution, update)?;
        Ok(ExecutionEvent::new(execution.clone(), ExecutionUpdate::Tool(copy)))
    }

    /// Correlates `message` with the active execution. Returns Protocol for a fragment
    /// over 4 MiB, Closed after closure, Protocol when no execution is active, and
    /// InvalidInput when another execution is active.
    pub fn message_event(&self, execution: &ExecutionId, message: MessageChunk) -> (r: Result<ExecutionEvent, AgentError>)
        requires
            self.wf(),
        ensures
            r is Ok <==> chunk_bytes(message) <= MAX_MESSAGE_CHUNK_BYTES && !self@.session.closed
                && is_active(self@.session, execution@),
            r matches Ok(ev) ==> ev@ == (EventValue { execution_id: *execution, update: UpdateValue::Message(message) }),
            r matches Err(e) ==> if chunk_bytes(message) > MAX_MESSAGE_CHUNK_BYTES {
                e is Protocol
            } else if self@.session.closed {
                e is Closed
            } else if self@.session.active is None {
                e is Protocol
            } else {
                e is InvalidInput
            },
    {
        validate_message_chunk(&message)?;
        if self.session.is_closed() {
            return Err(AgentError::Closed);
        }
        self.check_event_target(execution)?;
        Ok(ExecutionEvent::new(execution.clone(), ExecutionUpdate::Message(message)))
    }

    /// Correlates the established `outcome` with the active execution, without
    /// settling it. Returns Protocol when no execution is active and InvalidInput
    /// when another execution is active.
    pub fn finished_event(&self, execution: &ExecutionId, outcome: ExecutionOutcome) -> (r: Result<
        ExecutionEvent,
        AgentError,
    >)
        requires
            self.wf(),
        ensures
            r is Ok <==> is_active(self@.session, execution@),
            r matches Ok(ev) ==> ev@ == (EventValue { execution_id: *execution, update: UpdateValue::Finished(outcome) }),
            r matches Err(e) ==> if self@.session.active is None {
                e is Protocol
            } else {
                e is InvalidInput
            },
    {
        self.check_event_target(execution)?;
        Ok(ExecutionEvent::new(execution.clone(), ExecutionUpdate::Finished(outcome)))
    }
}

impl ExecutionController {
    /// Refuses, with Protocol, a review total above 32 MiB.
    pub(crate) fn validate_review_bytes(bytes: usize) -> (r: Result<(), AgentError>)
        ensures
            r is Ok <==> bytes <= MAX_RETAINED_BYTES,
            r matches Err(e) ==> e is Protocol,
    {
        if bytes > MAX_RETAINED_BYTES {
            return Err(AgentError::Protocol("permission review retention limit exceeded".to_owned()));
        }
        Ok(())
    }

    /// Bytes one review would retain; refuses an identity over 256 bytes with
    /// InvalidInput and a review over 32 MiB with Protocol.
    pub fn validate_review_payload(
        execution: &ExecutionId,
        id: &PermissionId,
        tool: &ToolCallId,
        input: &ToolReviewInput,
        options: &PermissionOptions,
    ) -> (r: Result<usize, AgentError>)
        ensures
            r is Ok <==> id_fits(id@) && id_fits(tool@) && review_bytes(execution@, id@, tool@, *input, options@)
                <= MAX_RETAINED_BYTES,
            r matches Ok(n) ==> n == review_bytes(execution@, id@, tool@, *input, options@),
            r matches Err(e) ==> if !id_fits(id@) || !id_fits(tool@) {
                e is InvalidInput
            } else {
                e is Protocol
            },
    {
        validate_observation_id(id.as_str())?;
        validate_observation_id(tool.as_str())?;
        let bytes = clamp(
            input.payload_bytes() as u128 + options.payload_bytes() as u128 + execution.byte_len() as u128 + 3
                * (id.byte_len() as u128) + tool.byte_len() as u128,
        );
        Self::validate_review_bytes(bytes)?;
        Ok(bytes)
    }

    /// Checks, without change, whether a review fits its execution's limits; returns
    /// its charged bytes and the review total it would leave.
    pub fn validate_review_retention(
        &self,
        execution: &ExecutionId,
        id: &PermissionId,
        tool: &ToolCallId,
        input: &ToolReviewInput,
        options: &PermissionOptions,
    ) -> (r: Result<(usize, usize), AgentError>)
        requires
            self.wf(),
        ensures
            ({
                let rb = review_bytes(execution@, id@, tool@, *input, options@);
                let refusal = if !is_active(self@.session, execution@) {
                    Some(Refusal::InvalidInput)
                } else if !id_fits(id@) {
                    Some(Refusal::InvalidInput)
                } else if self@.session.permissions.len() >= MAX_EXECUTION_PERMISSIONS {
                    Some(Refusal::Protocol)
                } else if self@.pending >= MAX_PERMISSIONS {
                    Some(Refusal::Protocol)
                } else if !id_fits(tool@) {
                    Some(Refusal::InvalidInput)
                } else if rb > MAX_RETAINED_BYTES {
                    Some(Refusal::Protocol)
                } else if self@.review_bytes + rb > MAX_RETAINED_BYTES {
                    Some(Refusal::Protocol)
                } else {
                    None::<Refusal>
                };
                &&& r is Ok <==> refusal is None
                &&& r matches Ok(p) ==> p.0 == rb && p.1 == self@.review_bytes + rb
                &&& r matches Err(e) ==> refused_as(e, refusal->0)
            }),
    {
        self.check_execution(execution)?;
        validate_observation_id(id.as_str())?;
        if self.session.permission_count() >= MAX_EXECUTION_PERMISSIONS {
            return Err(AgentError::Protocol("execution permission limit exceeded".to_owned()));
        }
        if self.pending_reviews >= MAX_PERMISSIONS {
            return Err(AgentError::Protocol("pending permission limit exceeded".to_owned()));
        }
        let charged = Self::validate_review_payload(execution, id, tool, input, options)?;
        let total = self.retained_review_bytes.saturating_add(charged);
        Self::validate_review_bytes(total)?;
        Ok((charged, total))
    }

    /// Admits review `id` of observed `tool`, retaining its exact `input` and offered
    /// `options` until resolution, and returns the review event with the tool state it
    /// captured. Every refusal precedes any change: InvalidInput for an inactive
    /// target or oversized identity, Closed after closure, Protocol for a repeated
    /// identity or an exceeded count or byte limit.
    pub fn request_permission(
        &mut self,
        execution: &ExecutionId,
        id: PermissionId,
        tool: ToolCallUpdate,
        input: ToolReviewInput,
        options: PermissionOptions,
    ) -> (r: Result<ExecutionEvent, AgentError>)
        requires
            old(self).wf(),
        ensures
            final(self).wf(),
            r is Ok <==> review_refusal(old(self)@, execution@, id@, tool@, input, options@) is None,
            r matches Err(e) ==> final(self)@ == old(self)@ && refused_as(
                e,
                review_refusal(old(self)@, execution@, id@, tool@, input, options@)->0,
            ),
            r matches Ok(ev) ==> {
                let w = after_tool(old(self)@, execution@, tool@);
                let rb = review_bytes(execution@, id@, tool@.id@, input, options@);
                let observed = merged(prior_observation(old(self)@.session.tools, tool@.id@), tool@.fields);
                &&& final(self)@ == (ControllerView {
                    session: SessionView {
                        permissions: w.session.permissions.push(
                            PermissionRequestView {
                                id,
                                execution_id: *execution,
                                tool_id: tool@.id,
                                options: options@,
                                state: PermissionStateView::Pending,
                            },
                        ),
                        ..w.session
                    },
                    reviews: old(self)@.reviews.push(Some((input, rb))),
                    pending: (old(self)@.pending + 1) as usize,
                    review_bytes: (old(self)@.review_bytes + rb) as usize,
                    ..w
                })
                &&& ev@ == (EventValue {
                    execution_id: *execution,
                    update: UpdateValue::PermissionRequested {
                        id,
                        tool_id: tool@.id,
                        observation: observed,
                        input,
                        options: options@,
                    },
                })
            },
    {
        let (charged, total) = self.validate_review_retention(execution, &id, &tool.id, &input, &options)?;
        let tool_id = tool.id.clone();
        let request = PermissionRequest::new(id.clone(), execution.clone(), tool_id.clone(), options.clone());
        match self.session.validate_permission_admission(&request) {
            Err(e) => return Err(domain_error(e)),
            Ok(()) => {},
        }
        let ghost before = self@;
        self.observe_tool(execution, tool)?;
        let ghost observed = self@;
        let admitted = self.session.request_permission(request);
        if admitted.is_err() {
            proof {
                assert(has_tool(observed.session.tools, tool_id@)) by {
                    let tools = before.session.tools;
                    if has_tool(tools, tool_id@) {
                        let i = tool_pos(tools, tool_id@);
                        assert(observed.session.tools[i].id@ == tool_id@);
                    } else {
                        assert(observed.session.tools[tools.len() as int].id@ == tool_id@);
                    }
                }
            }
            return Err(AgentError::Protocol("permission admission failed".to_owned()));
        }
        let observation = match self.session.tool(&tool_id) {
            Some(t) => t.observation().clone(),
            None => return Err(AgentError::Protocol("accepted observed tool is missing".to_owned())),
        };
        let ghost reviews_before = self.reviews@;
        self.reviews.push(Some((input.clone(), charged)));
        self.pending_reviews = self.pending_reviews + 1;
        self.retained_review_bytes = total;
        proof {
            lemma_sum_push(reviews_before, slot_charge(), Some((input, charged)));
            lemma_sum_push(reviews_before, slot_open(), Some((input, charged)));
            assert(self@.session.tools == observed.session.tools);
            let tools = before.session.tools;
            let pos = tool_pos(self@.session.tools, tool_id@);
            if has_tool(tools, tool_id@) {
                let i = tool_pos(tools, tool_id@);
                assert(self@.session.tools[i].id@ == tool_id@);
                if pos != i {
                    assert(self@.session.tools[pos].id@ != self@.session.tools[i].id@);
                }
            } else {
                let i = tools.len() as int;
                assert(self@.session.tools[i].id@ == tool_id@);
                if pos != i {
                    assert(self@.session.tools[pos].id@ != self@.session.tools[i].id@);
                }
            }
            assert forall|i: int| 0 <= i < self@.reviews.len() implies (#[trigger] self@.reviews[i] is Some
                <==> self@.session.permissions[i].state is Pending) by {
                if i < reviews_before.len() {
                    assert(self@.reviews[i] == reviews_before[i]);
                }
            }
        }
        Ok(
            ExecutionEvent::new(
                execution.clone(),
                ExecutionUpdate::PermissionRequested { id, tool_id, observation, input, options },
            ),
        )
    }
}

/// Whether choosing `option` answers the pending review `id` of the active `execution`.
pub open spec fn answerable(v: SessionView, execution: Seq<char>, id: Seq<char>, option: Seq<char>) -> bool {
    &&& is_active(v, execution)
    &&& is_pending(v.permissions, id)
    &&& answered_state(v.permissions[permission_pos(v.permissions, id)].options, option) is Some
}

/// The review `id` answered with `option`.
pub open spec fn answered_review(v: SessionView, id: Seq<char>, option: Seq<char>) -> PermissionRequestView {
    let p = v.permissions[permission_pos(v.permissions, id)];
    with_state(p, answered_state(p.options, option)->0)
}

/// The review `id` cancelled for `reason`.
pub open spec fn cancelled_review(
    v: SessionView,
    id: Seq<char>,
    reason: PermissionCancellationReason,
) -> PermissionRequestView {
    with_state(v.permissions[permission_pos(v.permissions, id)], PermissionStateView::Cancelled { reason })
}

/// Input retained for the review `id`.
pub open spec fn review_input(v: ControllerView, id: Seq<char>) -> ToolReviewInput {
    (v.reviews[permission_pos(v.session.permissions, id)]->0).0
}

/// The controller after its pending review at `i` resolves to `q`: the review's
/// input and charged bytes are released.
pub open spec fn resolved_at(v: ControllerView, i: int, q: PermissionRequestView) -> ControllerView {
    ControllerView {
        session: SessionView { permissions: v.session.permissions.update(i, q), ..v.session },
        reviews: v.reviews.update(i, None),
        pending: (v.pending - 1) as usize,
        review_bytes: (v.review_bytes - slot_charge()(v.reviews[i])) as usize,
        ..v
    }
}

/// The controller after every pending review is cancelled for `reason`.
pub open spec fn withdrawn_all(v: ControllerView, reason: PermissionCancellationReason) -> ControllerView {
    ControllerView {
        session: SessionView { permissions: cancel_all(v.session.permissions, reason), ..v.session },
        reviews: all_released(v.reviews),
        pending: 0,
        review_bytes: 0,
        ..v
    }
}

/// What an accepted close leaves and reports: the first close records the closure
/// and then every pending review cancelled with its input; a repeated close changes
/// nothing and reports nothing.
pub open spec fn closure_evidence(
    before: ControllerView,
    after: ControllerView,
    records: Seq<ExecutionAuditRecord>,
    reason: PermissionCancellationReason,
    origin: CancellationOrigin,
) -> bool {
    if before.session.closed {
        after == before && records.len() == 0
    } else {
        let w = withdrawn_all(before, reason);
        &&& after == (ControllerView { session: SessionView { closed: true, ..w.session }, ..w })
        &&& records.len() >= 1
        &&& records[0] matches ExecutionAuditRecord::SessionClosed(s) && s.spec_closure() == (SessionClosure {
            session_id: before.session.id,
            execution: before.session.active,
            reason,
        }) && s.spec_origin() == origin
        &&& cancellations_are(
            records.drop_first(),
            released(before.session.permissions, before.reviews, reason, before.session.id, origin),
        )
    }
}

/// The controller once its execution settles: idle, with no tools, reviews or
/// retained bytes.
pub open spec fn settled(v: ControllerView) -> ControllerView {
    ControllerView {
        session: SessionView { active: None, tools: Seq::empty(), permissions: Seq::empty(), ..v.session },
        reviews: Seq::empty(),
        pending: 0,
        tool_bytes: 0,
        review_bytes: 0,
    }
}

/// What settlement reports: the finish record, then every pending review cancelled
/// by the runtime with the settlement's cause and its input.
pub open spec fn settlement_evidence(
    before: ControllerView,
    records: Seq<ExecutionAuditRecord>,
    result: Result<ExecutionOutcome, PermissionCancellationReason>,
) -> bool {
    &&& records.len() >= 1
    &&& records[0] matches ExecutionAuditRecord::Finished(f) && f == (ExecutionFinish {
        session_id: before.session.id,
        execution_id: before.session.active->0,
        result,
    })
    &&& cancellations_are(
        records.drop_first(),
        released(
            before.session.permissions,
            before.reviews,
            finish_cause(result),
            before.session.id,
            CancellationOrigin::Runtime,
        ),
    )
}

impl ExecutionController {
    /// Releases the retained input and charge of the pending slot `i`.
    fn take_review(&mut self, i: usize) -> (r: ToolReviewInput)
        requires
            i < old(self)@.reviews.len(),
            old(self)@.reviews[i as int] is Some,
            forall|j: int| 0 <= j < old(self)@.reviews.len() ==> slot_charge()(#[trigger] old(self)@.reviews[j]) >= 0,
            old(self)@.pending == seq_sum(old(self)@.reviews, slot_open()),
            old(self)@.review_bytes == seq_sum(old(self)@.reviews, slot_charge()),
        ensures
            r == (old(self)@.reviews[i as int]->0).0,
            final(self)@ == (ControllerView {
                reviews: old(self)@.reviews.update(i as int, None),
                pending: (old(self)@.pending - 1) as usize,
                review_bytes: (old(self)@.review_bytes - slot_charge()(old(self)@.reviews[i as int])) as usize,
                ..old(self)@
            }),
            final(self)@.pending == seq_sum(final(self)@.reviews, slot_open()),
            final(self)@.review_bytes == seq_sum(final(self)@.reviews, slot_charge()),
    {
        let ghost rs = self.reviews@;
        let slot = self.reviews[i].as_ref().unwrap();
        let input = slot.0.clone();
        let charged = slot.1;
        proof {
            lemma_sum_bounds(rs, slot_charge());
            assert forall|j: int| 0 <= j < rs.len() implies slot_open()(#[trigger] rs[j]) >= 0 by {}
            lemma_sum_bounds(rs, slot_open());
            assert(slot_open()(rs[i as int]) == 1);
            lemma_sum_update(rs, slot_charge(), i as int, None);
            lemma_sum_update(rs, slot_open(), i as int, None);
        }
        self.reviews.set(i, None);
        self.pending_reviews = self.pending_reviews - 1;
        self.retained_review_bytes = self.retained_review_bytes - charged;
        input
    }

    /// Inputs retained for the pending reviews, in admission order.
    fn pending_inputs(&self) -> (r: Vec<ToolReviewInput>)
        ensures
            r@ == slot_inputs(self@.reviews),
    {
        let mut out: Vec<ToolReviewInput> = Vec::new();
        let mut i: usize = 0;
        while i < self.reviews.len()
            invariant
                i <= self.reviews.len(),
                out@ == slot_inputs(self.reviews@.take(i as int)),
            decreases self.reviews.len() - i,
        {
            assert(self.reviews@.take(i + 1).drop_last() == self.reviews@.take(i as int));
            match &self.reviews[i] {
                Some(x) => out.push(x.0.clone()),
                None => {},
            }
            i = i + 1;
        }
        assert(self.reviews@.take(self.reviews.len() as int) == self.reviews@);
        out
    }

    /// Releases every retained review input and charge.
    fn clear_reviews(&mut self)
        ensures
            final(self)@ == (ControllerView {
                reviews: all_released(old(self)@.reviews),
                pending: 0,
                review_bytes: 0,
                ..old(self)@
            }),
    {
        let n = self.reviews.len();
        let mut fresh: Vec<ReviewSlot> = Vec::new();
        let mut i: usize = 0;
        while i < n
            invariant
                i <= n,
                fresh@.len() == i,
                forall|j: int| 0 <= j < i ==> #[trigger] fresh@[j] is None,
            decreases n - i,
        {
            fresh.push(None);
            i = i + 1;
        }
        assert(fresh@ =~= all_released(self.reviews@));
        self.reviews = fresh;
        self.pending_reviews = 0;
        self.retained_review_bytes = 0;
    }

    /// Cancellation evidence pairing each cancelled review with its input.
    fn cancellation_list(
        session_id: &ExecutionSessionId,
        requests: &Vec<PermissionRequest>,
        inputs: &Vec<ToolReviewInput>,
        origin: &CancellationOrigin,
    ) -> (r: Vec<PermissionCancellation>)
        requires
            requests.len() == inputs.len(),
        ensures
            cancellation_values(
                r@,
                Seq::new(requests.len() as nat, |k: int| (*session_id, requests@[k]@, inputs@[k], *origin)),
            ),
    {
        let mut out: Vec<PermissionCancellation> = Vec::new();
        let mut k: usize = 0;
        while k < requests.len()
            invariant
                k <= requests.len(),
                requests.len() == inputs.len(),
                out@.len() == k,
                forall|j: int|
                    0 <= j < k ==> cancellation_view(#[trigger] out@[j]) == (*session_id, requests@[j]@, inputs@[j], *origin),
            decreases requests.len() - k,
        {
            out.push(
                PermissionCancellation::new(session_id.clone(), requests[k].clone(), inputs[k].clone(), origin.clone()),
            );
            k = k + 1;
        }
        out
    }

    /// Appends a cancellation record for each cancelled review with its input.
    fn append_cancelled(
        records: &mut Vec<ExecutionAuditRecord>,
        session_id: &ExecutionSessionId,
        requests: &Vec<PermissionRequest>,
        inputs: &Vec<ToolReviewInput>,
        origin: &CancellationOrigin,
    )
        requires
            requests.len() == inputs.len(),
        ensures
            final(records)@.len() == old(records)@.len() + requests.len(),
            forall|k: int| 0 <= k < old(records)@.len() ==> #[trigger] final(records)@[k] == old(records)@[k],
            cancellations_are(
                final(records)@.skip(old(records)@.len() as int),
                Seq::new(requests.len() as nat, |k: int| (*session_id, requests@[k]@, inputs@[k], *origin)),
            ),
    {
        let ghost start = records@;
        let mut k: usize = 0;
        while k < requests.len()
            invariant
                k <= requests.len(),
                requests.len() == inputs.len(),
                records@.len() == start.len() + k,
                forall|j: int| 0 <= j < start.len() ==> #[trigger] records@[j] == start[j],
                forall|j: int|
                    0 <= j < k ==> (#[trigger] records@[start.len() + j] matches ExecutionAuditRecord::Cancelled(c)
                        && cancellation_view(c) == (*session_id, requests@[j]@, inputs@[j], *origin)),
            decreases requests.len() - k,
        {
            let c = PermissionCancellation::new(session_id.clone(), requests[k].clone(), inputs[k].clone(), origin.clone());
            records.push(ExecutionAuditRecord::Cancelled(c));
            k = k + 1;
        }
        proof {
            let tail = records@.skip(start.len() as int);
            assert forall|j: int| 0 <= j < tail.len() implies (#[trigger] tail[j] matches ExecutionAuditRecord::Cancelled(c)
                && cancellation_view(c) == (*session_id, requests@[j]@, inputs@[j], *origin)) by {
                assert(tail[j] == records@[start.len() + j]);
            }
        }
    }
}

/// Resolving a pending review keeps the controller valid.
proof fn lemma_resolved_wf(v: ControllerView, i: int, q: PermissionRequestView)
    requires
        controller_wf(v),
        0 <= i < v.reviews.len(),
        v.session.permissions[i].state is Pending,
        !(q.state is Pending),
        session_wf(SessionView { permissions: v.session.permissions.update(i, q), ..v.session }),
    ensures
        controller_wf(resolved_at(v, i, q)),
{
    let w = resolved_at(v, i, q);
    lemma_sum_bounds(v.reviews, slot_charge());
    assert forall|j: int| 0 <= j < v.reviews.len() implies slot_open()(#[trigger] v.reviews[j]) >= 0 by {}
    lemma_sum_bounds(v.reviews, slot_open());
    assert(slot_open()(v.reviews[i]) == 1);
    lemma_sum_update(v.reviews, slot_charge(), i, None);
    lemma_sum_update(v.reviews, slot_open(), i, None);
    assert forall|j: int| 0 <= j < w.reviews.len() implies (#[trigger] w.reviews[j] is Some
        <==> w.session.permissions[j].state is Pending) by {
        if j != i {
            assert(w.reviews[j] == v.reviews[j]);
        }
    }
    assert forall|j: int| 0 <= j < w.reviews.len() implies slot_charge()(#[trigger] w.reviews[j]) >= 0 by {
        if j != i {
            assert(w.reviews[j] == v.reviews[j]);
        }
    }
}

/// Releasing every slot of a valid controller leaves no retained review.
proof fn lemma_released_sums(rs: Seq<ReviewSlot>)
    ensures
        seq_sum(all_released(rs), slot_open()) == 0,
        seq_sum(all_released(rs), slot_charge()) == 0,
{
    lemma_sum_zero(all_released(rs), slot_open());
    lemma_sum_zero(all_released(rs), slot_charge());
}

/// The zipped evidence of the cancelled reviews and their inputs is `released`.
proof fn lemma_released_zip(
    ps: Seq<PermissionRequestView>,
    rs: Seq<ReviewSlot>,
    reason: PermissionCancellationReason,
    requests: Seq<PermissionRequest>,
    inputs: Seq<ToolReviewInput>,
    session: ExecutionSessionId,
    origin: CancellationOrigin,
)
    requires
        aligned(ps, rs),
        request_views(requests) == cancelled_list(ps, reason),
        inputs == slot_inputs(rs),
    ensures
        requests.len() == inputs.len(),
        Seq::new(requests.len() as nat, |k: int| (session, requests[k]@, inputs[k], origin))
            == released(ps, rs, reason, session, origin),
{
    lemma_aligned_counts(ps, rs, reason);
    assert(request_views(requests).len() == requests.len());
    let a = Seq::new(requests.len() as nat, |k: int| (session, requests[k]@, inputs[k], origin));
    let b = released(ps, rs, reason, session, origin);
    assert forall|k: int| 0 <= k < a.len() implies a[k] == b[k] by {
        assert(request_views(requests)[k] == requests[k]@);
    }
    assert(a =~= b);
}

impl ExecutionController {
    /// Resolves `answer` once against its execution, pending review and offered
    /// option, returning the answered review with its original input and the host's
    /// attribution. Anything that does not match a pending review is StalePermission
    /// and changes nothing.
    pub fn answer_permission(&mut self, answer: PermissionAnswer) -> (r: Result<PermissionResolution, AgentError>)
        requires
            old(self).wf(),
        ensures
            final(self).wf(),
            r is Ok <==> answerable(old(self)@.session, answer.execution_id@, answer.id@, answer.option_id@),
            r matches Err(e) ==> final(self)@ == old(self)@ && e is StalePermission,
            r matches Ok(res) ==> {
                let v = old(self)@;
                let q = answered_review(v.session, answer.id@, answer.option_id@);
                &&& res.spec_session_id() == v.session.id
                &&& res.spec_request() == q
                &&& res.spec_input() == review_input(v, answer.id@)
                &&& res.spec_attribution() == answer.attribution
                &&& final(self)@ == resolved_at(v, permission_pos(v.session.permissions, answer.id@), q)
            },
    {
        let ghost before = self@;
        let pos = self.session.permission_position(&answer.id);
        let request = match self.session.answer_permission(&answer.execution_id, &answer.id, &answer.option_id) {
            Ok(p) => p,
            Err(_) => return Err(AgentError::StalePermission),
        };
        let i = match pos {
            Some(i) => i,
            None => return Err(AgentError::StalePermission),
        };
        proof {
            lemma_resolved_wf(before, i as int, request@);
        }
        let input = self.take_review(i);
        let PermissionAnswer { attribution, .. } = answer;
        match PermissionResolution::new(self.id().clone(), request, input, attribution) {
            Ok(res) => Ok(res),
            Err(_) => Err(AgentError::StalePermission),
        }
    }

    /// Releases a pending review as if `option` were chosen, without resolution
    /// evidence; used only to replay retention limits on a disposable controller.
    /// A mismatch is Protocol and changes nothing.
    pub(crate) fn release_review_for_retention_validation(
        &mut self,
        execution: &ExecutionId,
        id: &PermissionId,
        option: &PermissionOptionId,
    ) -> (r: Result<(), AgentError>)
        requires
            old(self).wf(),
        ensures
            final(self).wf(),
            r is Ok <==> answerable(old(self)@.session, execution@, id@, option@),
            r matches Err(e) ==> final(self)@ == old(self)@ && e is Protocol,
            r is Ok ==> final(self)@ == resolved_at(
                old(self)@,
                permission_pos(old(self)@.session.permissions, id@),
                answered_review(old(self)@.session, id@, option@),
            ),
    {
        let ghost before = self@;
        let pos = self.session.permission_position(id);
        let request = match self.session.answer_permission(execution, id, option) {
            Ok(p) => p,
            Err(e) => return Err(domain_error(e)),
        };
        let i = match pos {
            Some(i) => i,
            None => return Err(AgentError::Protocol("answered review is missing".to_owned())),
        };
        proof {
            lemma_resolved_wf(before, i as int, request@);
        }
        let _ = self.take_review(i);
        Ok(())
    }

    /// Cancels pending review `id` of the active `execution` for `reason`, attributed
    /// to `origin`, and returns the evidence with the original input; `None` when no
    /// such review is pending. A cause the origin cannot record, or one that does not
    /// withdraw a single review, is InvalidInput; a closed session is Closed; a stale
    /// target is Protocol. A refusal changes nothing.
    pub fn cancel_permission(
        &mut self,
        execution: &ExecutionId,
        id: &PermissionId,
        reason: PermissionCancellationReason,
        origin: CancellationOrigin,
    ) -> (r: Result<Option<PermissionCancellation>, AgentError>)
        requires
            old(self).wf(),
        ensures
            final(self).wf(),
            r is Ok <==> origin_permits(origin, reason) && withdraws_single_review(reason)
                && !old(self)@.session.closed && is_active(old(self)@.session, execution@),
            r matches Err(e) ==> final(self)@ == old(self)@ && if !origin_permits(origin, reason)
                || !withdraws_single_review(reason) {
                e is InvalidInput
            } else if old(self)@.session.closed {
                e is Closed
            } else {
                e is Protocol
            },
            r matches Ok(None) ==> final(self)@ == old(self)@ && !is_pending(old(self)@.session.permissions, id@),
            r matches Ok(Some(c)) ==> {
                let v = old(self)@;
                let q = cancelled_review(v.session, id@, reason);
                &&& is_pending(v.session.permissions, id@)
                &&& cancellation_view(c) == (v.session.id, q, review_input(v, id@), origin)
                &&& final(self)@ == resolved_at(v, permission_pos(v.session.permissions, id@), q)
            },
    {
        origin.validate_reason(&reason)?;
        let ghost before = self@;
        let pos = self.session.permission_position(id);
        let request = match self.session.cancel_permission(execution, id, reason) {
            Ok(r) => r,
            Err(e) => return Err(domain_error(e)),
        };
        match request {
            None => Ok(None),
            Some(request) => {
                let i = match pos {
                    Some(i) => i,
                    None => return Ok(None),
                };
                proof {
                    lemma_resolved_wf(before, i as int, request@);
                }
                let input = self.take_review(i);
                Ok(Some(PermissionCancellation::new(self.id().clone(), request, input, origin)))
            },
        }
    }

    /// Withdraws one pending review on a host's explicit request, keeping the actor
    /// and exact cause. A cause other than the caller's own is InvalidInput, a closed
    /// session Closed, and a review that is not pending in the active execution
    /// StalePermission; a refusal leaves every pending review intact.
    pub fn cancel_review(&mut self, input: PermissionCancellationRequest) -> (r: Result<
        PermissionCancellation,
        AgentError,
    >)
        requires
            old(self).wf(),
        ensures
            final(self).wf(),
            r is Ok <==> input.reason is Custom && !old(self)@.session.closed && is_active(
                old(self)@.session,
                input.execution_id@,
            ) && is_pending(old(self)@.session.permissions, input.id@),
            r matches Err(e) ==> final(self)@ == old(self)@ && if !(input.reason is Custom) {
                e is InvalidInput
            } else if old(self)@.session.closed {
                e is Closed
            } else {
                e is StalePermission
            },
            r matches Ok(c) ==> {
                let v = old(self)@;
                let q = cancelled_review(v.session, input.id@, input.reason);
                &&& cancellation_view(c) == (
                    v.session.id,
                    q,
                    review_input(v, input.id@),
                    CancellationOrigin::Client(input.actor),
                )
                &&& final(self)@ == resolved_at(v, permission_pos(v.session.permissions, input.id@), q)
            },
    {
        let custom = match &input.reason {
            PermissionCancellationReason::Custom(_) => true,
            _ => false,
        };
        if !custom {
            return Err(
                AgentError::InvalidInput("explicit permission cancellation requires a custom caller reason".to_owned()),
            );
        }
        if self.session.is_closed() {
            return Err(AgentError::Closed);
        }
        if !self.session.is_active(&input.execution_id) {
            return Err(AgentError::StalePermission);
        }
        let PermissionCancellationRequest { execution_id, id, reason, actor } = input;
        match self.cancel_permission(&execution_id, &id, reason, CancellationOrigin::Client(actor)) {
            Ok(Some(c)) => Ok(c),
            Ok(None) => Err(AgentError::StalePermission),
            Err(e) => Err(e),
        }
    }

    /// Cancels every pending review of the active `execution` for `reason`, attributed
    /// to `origin`, in admission order, each with its original input; resolved
    /// identities stay recorded until settlement. Refusals are as for
    /// [`Self::cancel_permission`] and change nothing.
    pub fn cancel_permissions(
        &mut self,
        execution: &ExecutionId,
        reason: PermissionCancellationReason,
        origin: CancellationOrigin,
    ) -> (r: Result<Vec<PermissionCancellation>, AgentError>)
        requires
            old(self).wf(),
        ensures
            final(self).wf(),
            r is Ok <==> origin_permits(origin, reason) && withdraws_single_review(reason)
                && !old(self)@.session.closed && is_active(old(self)@.session, execution@),
            r matches Err(e) ==> final(self)@ == old(self)@ && if !origin_permits(origin, reason)
                || !withdraws_single_review(reason) {
                e is InvalidInput
            } else if old(self)@.session.closed {
                e is Closed
            } else {
                e is Protocol
            },
            r matches Ok(cs) ==> final(self)@ == withdrawn_all(old(self)@, reason) && cancellation_values(
                cs@,
                released(old(self)@.session.permissions, old(self)@.reviews, reason, old(self)@.session.id, origin),
            ),
    {
        origin.validate_reason(&reason)?;
        let ghost before = self@;
        let inputs = self.pending_inputs();
        let requests = match self.session.cancel_permissions(execution, reason.clone()) {
            Ok(v) => v,
            Err(e) => return Err(domain_error(e)),
        };
        self.clear_reviews();
        proof {
            lemma_released_zip(before.session.permissions, before.reviews, reason, requests@, inputs@, before.session.id, origin);
        }
        let out = Self::cancellation_list(self.id(), &requests, &inputs, &origin);
        proof {
            lemma_released_sums(before.reviews);
            let w = self@;
            assert forall|j: int| 0 <= j < w.reviews.len() implies (#[trigger] w.reviews[j] is Some
                <==> w.session.permissions[j].state is Pending) by {}
        }
        Ok(out)
    }
}

/// Why a close is refused, if it is: an origin that cannot record the cause or a
/// cause that cannot close a session is InvalidInput, as is `ExecutionFailed` for a
/// session-wide close; a stale target of an execution-scoped close is Protocol.
pub open spec fn close_refusal(
    v: ControllerView,
    execution: Option<Seq<char>>,
    reason: PermissionCancellationReason,
    origin: CancellationOrigin,
) -> Option<Refusal> {
    if !origin_permits(origin, reason) || !closes_session(reason) {
        Some(Refusal::InvalidInput)
    } else {
        match execution {
            None => if reason is ExecutionFailed {
                Some(Refusal::InvalidInput)
            } else {
                None
            },
            Some(e) => if is_active(v.session, e) {
                None
            } else {
                Some(Refusal::Protocol)
            },
        }
    }
}

impl ExecutionController {
    fn close_target(
        &mut self,
        execution: Option<&ExecutionId>,
        reason: PermissionCancellationReason,
        origin: CancellationOrigin,
    ) -> (r: Result<Vec<ExecutionAuditRecord>, AgentError>)
        requires
            old(self).wf(),
        ensures
            final(self).wf(),
            ({
                let target = match execution {
                    Some(e) => Some(e@),
                    None => None,
                };
                let refusal = close_refusal(old(self)@, target, reason, origin);
                &&& r is Ok <==> refusal is None
                &&& r matches Err(e) ==> final(self)@ == old(self)@ && refused_as(e, refusal->0)
                &&& r matches Ok(records) ==> closure_evidence(old(self)@, final(self)@, records@, reason, origin)
            }),
    {
        origin.validate_reason(&reason)?;
        let ghost before = self@;
        let inputs = self.pending_inputs();
        let was_closed = self.session.is_closed();
        let result = match execution {
            Some(e) => self.session.close_execution(e, reason.clone()),
            None => self.session.close(reason.clone()),
        };
        let outcome = match result {
            Ok(o) => o,
            Err(e) => return Err(domain_error(e)),
        };
        if was_closed {
            return Ok(Vec::new());
        }
        let (closure, permissions) = outcome.into_parts();
        self.clear_reviews();
        let mut records: Vec<ExecutionAuditRecord> = Vec::new();
        let closure = match closure {
            Some(c) => c,
            None => return Ok(records),
        };
        let record = match SessionClosureRecord::new(closure, origin.clone()) {
            Ok(x) => x,
            Err(e) => return Err(e),
        };
        records.push(ExecutionAuditRecord::SessionClosed(record));
        proof {
            lemma_released_zip(
                before.session.permissions,
                before.reviews,
                reason,
                permissions@,
                inputs@,
                before.session.id,
                origin,
            );
        }
        Self::append_cancelled(&mut records, self.id(), &permissions, &inputs, &origin);
        proof {
            lemma_released_sums(before.reviews);
            let w = self@;
            assert forall|j: int| 0 <= j < w.reviews.len() implies (#[trigger] w.reviews[j] is Some
                <==> w.session.permissions[j].state is Pending) by {}
            assert(records@.drop_first() == records@.skip(1));
        }
        Ok(records)
    }

    /// Closes this live session and returns its audit evidence: the first close
    /// records the closure, even when idle, followed by every pending review cancelled
    /// with its input; a repeated close returns nothing. An origin that cannot record
    /// the cause, a cause that cannot close a session, and `ExecutionFailed` (which
    /// belongs to [`Self::close_execution`]) are InvalidInput and change nothing.
    pub fn close(&mut self, reason: PermissionCancellationReason, origin: CancellationOrigin) -> (r: Result<
        Vec<ExecutionAuditRecord>,
        AgentError,
    >)
        requires
            old(self).wf(),
        ensures
            final(self).wf(),
            r is Ok <==> close_refusal(old(self)@, None, reason, origin) is None,
            r matches Err(e) ==> final(self)@ == old(self)@ && e is InvalidInput,
            r matches Ok(records) ==> closure_evidence(old(self)@, final(self)@, records@, reason, origin),
    {
        self.close_target(None, reason, origin)
    }

    /// Closes the session only while the captured `execution` still owns it, with the
    /// evidence of [`Self::close`]. An origin that cannot record the cause or a cause
    /// that cannot close a session is InvalidInput; a stale target is Protocol; a
    /// refusal changes nothing.
    pub fn close_execution(
        &mut self,
        execution: &ExecutionId,
        reason: PermissionCancellationReason,
        origin: CancellationOrigin,
    ) -> (r: Result<Vec<ExecutionAuditRecord>, AgentError>)
        requires
            old(self).wf(),
        ensures
            final(self).wf(),
            r is Ok <==> close_refusal(old(self)@, Some(execution@), reason, origin) is None,
            r matches Err(e) ==> final(self)@ == old(self)@ && refused_as(
                e,
                close_refusal(old(self)@, Some(execution@), reason, origin)->0,
            ),
            r matches Ok(records) ==> closure_evidence(old(self)@, final(self)@, records@, reason, origin),
    {
        self.close_target(Some(execution), reason, origin)
    }

    /// Settles the captured active `execution` with `result`: returns the finish
    /// record, then every pending review cancelled by the runtime with the failure
    /// cause or `ExecutionFinished`, each with its input; tools, reviews and both
    /// budgets are released. A stale target is Protocol, a failure cause that cannot
    /// fail an execution InvalidInput; a refusal changes nothing.
    pub fn finish_execution(
        &mut self,
        execution: &ExecutionId,
        result: Result<ExecutionOutcome, PermissionCancellationReason>,
    ) -> (r: Result<Vec<ExecutionAuditRecord>, AgentError>)
        requires
            old(self).wf(),
        ensures
            final(self).wf(),
            r is Ok <==> is_active(old(self)@.session, execution@) && (result matches Err(c) ==> fails_execution(
                c,
                old(self)@.session.closed,
            )),
            r matches Err(e) ==> final(self)@ == old(self)@ && if !is_active(old(self)@.session, execution@) {
                e is Protocol
            } else {
                e is InvalidInput
            },
            r matches Ok(records) ==> final(self)@ == settled(old(self)@) && settlement_evidence(
                old(self)@,
                records@,
                result,
            ),
    {
        let ghost before = self@;
        let ghost cause = finish_cause(result);
        let inputs = self.pending_inputs();
        let (finished, cancelled) = match self.session.finish_execution(execution, result) {
            Ok(x) => x,
            Err(e) => return Err(domain_error(e)),
        };
        self.reviews = Vec::new();
        self.pending_reviews = 0;
        self.retained_review_bytes = 0;
        self.retained_tool_bytes = 0;
        let mut records: Vec<ExecutionAuditRecord> = Vec::new();
        records.push(ExecutionAuditRecord::Finished(finished));
        proof {
            lemma_released_zip(
                before.session.permissions,
                before.reviews,
                cause,
                cancelled@,
                inputs@,
                before.session.id,
                CancellationOrigin::Runtime,
            );
        }
        let runtime = CancellationOrigin::Runtime;
        Self::append_cancelled(&mut records, self.id(), &cancelled, &inputs, &runtime);
        proof {
            assert(self@.reviews =~= Seq::<ReviewSlot>::empty());
            assert(records@.drop_first() == records@.skip(1));
        }
        Ok(records)
    }

    /// Event for a question the agent asks in `execution`. Nothing is admitted to
    /// the session: an ask authorises nothing. An identity over 256 bytes is
    /// InvalidInput and a question over the 32 MiB review budget Protocol.
    pub fn ask_question(&mut self, execution: &ExecutionId, id: QuestionId, question: AgentQuestion) -> (r: Result<
        ExecutionEvent,
        AgentError,
    >)
        requires
            old(self).wf(),
        ensures
            final(self)@ == old(self)@,
            ({
                let ev = EventValue {
                    execution_id: *execution,
                    update: UpdateValue::QuestionAsked { id, question: question@ },
                };
                &&& r is Ok <==> payload_refusal(ev) is None
                &&& r matches Ok(e) ==> e@ == ev
                &&& r matches Err(e) ==> if payload_refusal(ev)->0 {
                    e is InvalidInput
                } else {
                    e is Protocol
                }
            }),
    {
        let event = ExecutionEvent::new(execution.clone(), ExecutionUpdate::QuestionAsked { id, question });
        event.validate_payload_size()?;
        Ok(event)
    }

    /// Event for an ask of `execution` that stopped waiting, answered or withdrawn.
    /// An identity over 256 bytes is InvalidInput.
    pub fn close_question(&self, execution: &ExecutionId, id: QuestionId) -> (r: Result<ExecutionEvent, AgentError>)
        ensures
            r is Ok <==> id_fits(id@),
            r matches Ok(e) ==> e@ == (EventValue { execution_id: *execution, update: UpdateValue::QuestionClosed { id } }),
            r matches Err(e) ==> e is InvalidInput,
    {
        let event = ExecutionEvent::new(execution.clone(), ExecutionUpdate::QuestionClosed { id });
        event.validate_payload_size()?;
        Ok(event)
    }
}


} // verus!



