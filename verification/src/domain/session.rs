//! The live execution-session aggregate: one active execution at a time, its tool
//! observations and permission reviews, and once-only closure and settlement.
use super::error::ExecutionError;
use super::executions::ExecutionOutcome;
use super::ids::{ExecutionId, ExecutionSessionId, PermissionId, PermissionOptionId, ToolCallId};
use super::permissions::{
    answered_state, closes_session, fails_execution, withdraws_single_review,
    PermissionCancellationReason, PermissionRequest, PermissionRequestView, PermissionStateView,
};
use super::tools::{
    charge, empty_observation, merged, tool_charge, ToolCall, ToolCallUpdate, ToolCallView,
    ToolObservation,
};
use vstd::prelude::*;

verus! {

/// Once-only evidence that a live session closed.
#[derive(Debug, PartialEq, Eq)]
pub struct SessionClosure {
    /// Closed provider context.
    pub session_id: ExecutionSessionId,
    /// Execution that was active when the session closed.
    pub execution: Option<ExecutionId>,
    /// Why the session closed.
    pub reason: PermissionCancellationReason,
}

impl Clone for SessionClosure {
    fn clone(&self) -> (r: Self)
        ensures
            r == *self,
    {
        SessionClosure {
            session_id: self.session_id.clone(),
            execution: match &self.execution {
                Some(e) => Some(e.clone()),
                None => None,
            },
            reason: self.reason.clone(),
        }
    }
}

impl SessionClosure {
    /// Closed provider context.
    pub fn session_id(&self) -> (r: &ExecutionSessionId)
        ensures
            *r == self.session_id,
    {
        &self.session_id
    }

    /// Execution that was active when the session closed.
    pub fn execution(&self) -> (r: Option<&ExecutionId>)
        ensures
            r is Some <==> self.execution is Some,
            r is Some ==> *r->0 == self.execution->0,
    {
        match &self.execution {
            Some(e) => Some(e),
            None => None,
        }
    }

    /// Why the session closed.
    pub fn reason(&self) -> (r: &PermissionCancellationReason)
        ensures
            *r == self.reason,
    {
        &self.reason
    }
}

/// Once-only evidence that an execution released the session.
#[derive(Debug, PartialEq, Eq)]
pub struct ExecutionFinish {
    /// Owning provider context.
    pub session_id: ExecutionSessionId,
    /// Settled execution.
    pub execution_id: ExecutionId,
    /// Outcome, or the cause of failure.
    pub result: Result<ExecutionOutcome, PermissionCancellationReason>,
}

impl Clone for ExecutionFinish {
    fn clone(&self) -> (r: Self)
        ensures
            r == *self,
    {
        ExecutionFinish {
            session_id: self.session_id.clone(),
            execution_id: self.execution_id.clone(),
            result: match &self.result {
                Ok(o) => Ok(*o),
                Err(e) => Err(e.clone()),
            },
        }
    }
}

impl ExecutionFinish {
    /// Owning provider context.
    pub fn session_id(&self) -> (r: &ExecutionSessionId)
        ensures
            *r == self.session_id,
    {
        &self.session_id
    }

    /// Settled execution.
    pub fn execution_id(&self) -> (r: &ExecutionId)
        ensures
            *r == self.execution_id,
    {
        &self.execution_id
    }

    /// Outcome, or the cause of failure.
    pub fn result(&self) -> (r: &Result<ExecutionOutcome, PermissionCancellationReason>)
        ensures
            *r == self.result,
    {
        &self.result
    }
}

/// Closure evidence and the reviews it cancelled.
#[derive(Debug)]
pub struct SessionCloseOutcome {
    /// Closure record, absent when the session was already closed.
    pub closure: Option<SessionClosure>,
    /// Reviews cancelled by this closure, in admission order.
    pub permissions: Vec<PermissionRequest>,
}

impl SessionCloseOutcome {
    /// Splits the closure record from the cancelled reviews.
    pub fn into_parts(self) -> (r: (Option<SessionClosure>, Vec<PermissionRequest>))
        ensures
            r.0 == self.closure,
            r.1@ == self.permissions@,
    {
        (self.closure, self.permissions)
    }
}

/// Mathematical value of an [`ExecutionSession`].
pub struct SessionView {
    /// Provider context identity.
    pub id: ExecutionSessionId,
    /// Whether closure has been recorded.
    pub closed: bool,
    /// The execution that owns the session now.
    pub active: Option<ExecutionId>,
    /// Every execution identity ever admitted, in order.
    pub admitted: Seq<ExecutionId>,
    /// Tools observed in the active execution.
    pub tools: Seq<ToolCallView>,
    /// Reviews admitted in the active execution, in any state.
    pub permissions: Seq<PermissionRequestView>,
}

/// Whether `e` names the active execution of `v`.
pub open spec fn is_active(v: SessionView, e: Seq<char>) -> bool {
    v.active matches Some(a) && a@ == e
}

/// Whether the identity `e` has been admitted before.
pub open spec fn was_admitted(admitted: Seq<ExecutionId>, e: Seq<char>) -> bool {
    exists|i: int| 0 <= i < admitted.len() && #[trigger] admitted[i]@ == e
}

/// Whether a tool with identity `id` is observed.
pub open spec fn has_tool(tools: Seq<ToolCallView>, id: Seq<char>) -> bool {
    exists|i: int| 0 <= i < tools.len() && #[trigger] tools[i].id@ == id
}

/// Position of the observed tool `id`.
pub open spec fn tool_pos(tools: Seq<ToolCallView>, id: Seq<char>) -> int {
    choose|i: int| 0 <= i < tools.len() && #[trigger] tools[i].id@ == id
}

/// Whether a review with identity `id` was admitted.
pub open spec fn has_permission(ps: Seq<PermissionRequestView>, id: Seq<char>) -> bool {
    exists|i: int| 0 <= i < ps.len() && #[trigger] ps[i].id@ == id
}

/// Position of the review `id`.
pub open spec fn permission_pos(ps: Seq<PermissionRequestView>, id: Seq<char>) -> int {
    choose|i: int| 0 <= i < ps.len() && #[trigger] ps[i].id@ == id
}

/// Whether the review `id` is still waiting.
pub open spec fn is_pending(ps: Seq<PermissionRequestView>, id: Seq<char>) -> bool {
    has_permission(ps, id) && ps[permission_pos(ps, id)].state is Pending
}

/// The observation of tool `id`, or the empty observation.
pub open spec fn prior_observation(tools: Seq<ToolCallView>, id: Seq<char>) -> super::tools::ObservationView {
    if has_tool(tools, id) {
        tools[tool_pos(tools, id)].observation
    } else {
        empty_observation()
    }
}

/// Tools after observing `u`: an existing tool is merged in place, a new one appended.
pub open spec fn observe(tools: Seq<ToolCallView>, u: super::tools::UpdateView) -> Seq<ToolCallView> {
    if has_tool(tools, u.id@) {
        let i = tool_pos(tools, u.id@);
        tools.update(i, ToolCallView { id: tools[i].id, observation: merged(tools[i].observation, u.fields) })
    } else {
        tools.push(ToolCallView { id: u.id, observation: merged(empty_observation(), u.fields) })
    }
}

/// A review with its state replaced.
pub open spec fn with_state(p: PermissionRequestView, s: PermissionStateView) -> PermissionRequestView {
    PermissionRequestView { state: s, ..p }
}

/// Every pending review of `ps` cancelled for `reason`; resolved reviews unchanged.
pub open spec fn cancel_all(ps: Seq<PermissionRequestView>, reason: PermissionCancellationReason) -> Seq<PermissionRequestView> {
    Seq::new(
        ps.len(),
        |i: int|
            if ps[i].state is Pending {
                with_state(ps[i], PermissionStateView::Cancelled { reason })
            } else {
                ps[i]
            },
    )
}

/// The reviews of `ps` that `cancel_all` cancels, as cancelled, in order.
pub open spec fn cancelled_list(ps: Seq<PermissionRequestView>, reason: PermissionCancellationReason) -> Seq<PermissionRequestView>
    decreases ps.len(),
{
    if ps.len() == 0 {
        Seq::empty()
    } else {
        let rest = cancelled_list(ps.drop_last(), reason);
        if ps.last().state is Pending {
            rest.push(with_state(ps.last(), PermissionStateView::Cancelled { reason }))
        } else {
            rest
        }
    }
}

/// Views of a list of reviews.
pub open spec fn request_views(v: Seq<PermissionRequest>) -> Seq<PermissionRequestView> {
    v.map_values(|p: PermissionRequest| p@)
}

/// Structural validity of a session value.
pub open spec fn session_wf(v: SessionView) -> bool {
    &&& forall|i: int, j: int|
        0 <= i < v.tools.len() && 0 <= j < v.tools.len() && i != j ==> #[trigger] v.tools[i].id@
            != #[trigger] v.tools[j].id@
    &&& forall|i: int, j: int|
        0 <= i < v.permissions.len() && 0 <= j < v.permissions.len() && i != j
            ==> #[trigger] v.permissions[i].id@ != #[trigger] v.permissions[j].id@
    &&& (v.active is None ==> v.tools.len() == 0 && v.permissions.len() == 0)
    &&& (v.active matches Some(a) ==> was_admitted(v.admitted, a@))
    &&& forall|i: int|
        0 <= i < v.permissions.len() ==> is_active(v, #[trigger] v.permissions[i].execution_id@)
    &&& (v.closed ==> forall|i: int|
        0 <= i < v.permissions.len() ==> !(#[trigger] v.permissions[i].state is Pending))
}

/// The live session aggregate.
#[derive(Debug)]
pub struct ExecutionSession {
    id: ExecutionSessionId,
    closed: bool,
    active: Option<ExecutionId>,
    admitted: Vec<ExecutionId>,
    tools: Vec<ToolCall>,
    permissions: Vec<PermissionRequest>,
}

impl View for ExecutionSession {
    type V = SessionView;

    closed spec fn view(&self) -> SessionView {
        SessionView {
            id: self.id,
            closed: self.closed,
            active: self.active,
            admitted: self.admitted@,
            tools: self.tools@.map_values(|t: ToolCall| t@),
            permissions: request_views(self.permissions@),
        }
    }
}

proof fn lemma_cancelled_list_step(ps: Seq<PermissionRequestView>, reason: PermissionCancellationReason, i: int)
    requires
        0 <= i < ps.len(),
    ensures
        cancelled_list(ps.take(i + 1), reason) == if ps[i].state is Pending {
            cancelled_list(ps.take(i), reason).push(with_state(ps[i], PermissionStateView::Cancelled { reason }))
        } else {
            cancelled_list(ps.take(i), reason)
        },
{
    assert(ps.take(i + 1).drop_last() == ps.take(i));
}

impl ExecutionSession {
    /// An idle, open session for provider context `id`.
    pub fn new(id: ExecutionSessionId) -> (r: Self)
        ensures
            r@.id == id,
            !r@.closed,
            r@.active is None,
            r@.admitted.len() == 0,
            r@.tools.len() == 0,
            r@.permissions.len() == 0,
            session_wf(r@),
    {
        let r = ExecutionSession {
            id,
            closed: false,
            active: None,
            admitted: Vec::new(),
            tools: Vec::new(),
            permissions: Vec::new(),
        };
        assert(r@.tools =~= Seq::empty());
        assert(r@.permissions =~= Seq::empty());
        r
    }

    /// Provider context identity.
    pub fn id(&self) -> (r: &ExecutionSessionId)
        ensures
            *r == self@.id,
    {
        &self.id
    }

    /// Whether closure has been recorded.
    pub fn is_closed(&self) -> (r: bool)
        ensures
            r == self@.closed,
    {
        self.closed
    }

    /// The active execution, if any.
    pub fn active_execution(&self) -> (r: Option<&ExecutionId>)
        ensures
            r is Some <==> self@.active is Some,
            r is Some ==> *r->0 == self@.active->0,
    {
        match &self.active {
            Some(a) => Some(a),
            None => None,
        }
    }

    /// Whether `execution` is the active execution.
    pub fn is_active(&self, execution: &ExecutionId) -> (r: bool)
        ensures
            r == is_active(self@, execution@),
    {
        match &self.active {
            Some(a) => a.same(execution),
            None => false,
        }
    }

    /// Number of tools observed in the active execution.
    pub fn tool_count(&self) -> (r: usize)
        ensures
            r == self@.tools.len(),
    {
        self.tools.len()
    }

    /// Number of reviews admitted in the active execution, resolved ones included.
    pub fn permission_count(&self) -> (r: usize)
        ensures
            r == self@.permissions.len(),
    {
        self.permissions.len()
    }

    /// The review at position `i` in admission order.
    pub fn permission(&self, i: usize) -> (r: &PermissionRequest)
        requires
            i < self@.permissions.len(),
        ensures
            r@ == self@.permissions[i as int],
    {
        &self.permissions[i]
    }

    /// Position of the review `id`, if admitted in the active execution.
    pub fn permission_position(&self, id: &PermissionId) -> (r: Option<usize>)
        requires
            session_wf(self@),
        ensures
            r is Some <==> has_permission(self@.permissions, id@),
            r matches Some(i) ==> i == permission_pos(self@.permissions, id@) && i < self@.permissions.len(),
    {
        self.find_permission(id)
    }

    fn find_tool(&self, id: &ToolCallId) -> (r: Option<usize>)
        requires
            session_wf(self@),
        ensures
            r is Some <==> has_tool(self@.tools, id@),
            r matches Some(i) ==> i == tool_pos(self@.tools, id@) && i < self@.tools.len(),
    {
        let mut i: usize = 0;
        while i < self.tools.len()
            invariant
                i <= self.tools.len(),
                session_wf(self@),
                forall|j: int| 0 <= j < i ==> #[trigger] self.tools@[j].id@ != id@,
            decreases self.tools.len() - i,
        {
            if self.tools[i].id.same(id) {
                proof {
                    assert(self@.tools[i as int].id@ == id@);
                    let j = tool_pos(self@.tools, id@);
                    if j != i {
                        assert(self@.tools[j].id@ != self@.tools[i as int].id@);
                    }
                }
                return Some(i);
            }
            i = i + 1;
        }
        assert forall|j: int| 0 <= j < self@.tools.len() implies #[trigger] self@.tools[j].id@ != id@ by {
            assert(self@.tools[j] == self.tools@[j]@);
        }
        None
    }

    fn find_permission(&self, id: &PermissionId) -> (r: Option<usize>)
        requires
            session_wf(self@),
        ensures
            r is Some <==> has_permission(self@.permissions, id@),
            r matches Some(i) ==> i == permission_pos(self@.permissions, id@) && i < self@.permissions.len(),
    {
        let mut i: usize = 0;
        while i < self.permissions.len()
            invariant
                i <= self.permissions.len(),
                session_wf(self@),
                forall|j: int| 0 <= j < i ==> #[trigger] self.permissions@[j]@.id@ != id@,
            decreases self.permissions.len() - i,
        {
            if self.permissions[i].id().same(id) {
                proof {
                    assert(self@.permissions[i as int].id@ == id@);
                    let j = permission_pos(self@.permissions, id@);
                    if j != i {
                        assert(self@.permissions[j].id@ != self@.permissions[i as int].id@);
                    }
                }
                return Some(i);
            }
            i = i + 1;
        }
        assert forall|j: int| 0 <= j < self@.permissions.len() implies #[trigger] self@.permissions[j].id@ != id@ by {
            assert(self@.permissions[j] == self.permissions@[j]@);
        }
        None
    }

    /// The observed tool `id`, if any.
    pub fn tool(&self, id: &ToolCallId) -> (r: Option<&ToolCall>)
        requires
            session_wf(self@),
        ensures
            r is Some <==> has_tool(self@.tools, id@),
            r matches Some(t) ==> t@ == self@.tools[tool_pos(self@.tools, id@)],
    {
        match self.find_tool(id) {
            Some(i) => Some(&self.tools[i]),
            None => None,
        }
    }

    /// Bytes the active execution retains for tool `id`, zero when it is absent.
    pub fn tool_payload_bytes(&self, id: &ToolCallId) -> (r: usize)
        requires
            session_wf(self@),
        ensures
            r == if has_tool(self@.tools, id@) {
                tool_charge(self@.active->0@, id@, self@.tools[tool_pos(self@.tools, id@)].observation)
            } else {
                0
            },
    {
        match self.find_tool(id) {
            Some(i) => {
                let active = self.active.as_ref().unwrap();
                charge(active, id, &self.tools[i].observation)
            },
            None => 0,
        }
    }

    /// Bytes tool `update.id` would retain after observing `update` in `execution`.
    pub fn tool_payload_bytes_after(&self, execution: &ExecutionId, update: &ToolCallUpdate) -> (r:
        Result<usize, ExecutionError>)
        requires
            session_wf(self@),
        ensures
            r is Ok <==> !self@.closed && is_active(self@, execution@),
            r matches Ok(n) ==> n == tool_charge(
                execution@,
                update.id@,
                merged(prior_observation(self@.tools, update.id@), update@.fields),
            ),
            r matches Err(e) ==> e == if self@.closed {
                ExecutionError::SessionClosed
            } else {
                ExecutionError::ExecutionMismatch
            },
    {
        if self.closed {
            return Err(ExecutionError::SessionClosed);
        }
        if !self.is_active(execution) {
            return Err(ExecutionError::ExecutionMismatch);
        }
        let merged_obs = match self.find_tool(&update.id) {
            Some(i) => self.tools[i].observation.merge(update),
            None => {
                let empty = ToolObservation {
                    title: None,
                    kind: None,
                    status: None,
                    locations: None,
                    content: None,
                };
                empty.merge(update)
            },
        };
        Ok(charge(execution, &update.id, &merged_obs))
    }

    /// Admits `id` as the sole active execution. Refuses a closed session, a busy
    /// session, or an identity admitted before, without change.
    pub fn begin_execution(&mut self, id: ExecutionId) -> (r: Result<(), ExecutionError>)
        requires
            session_wf(old(self)@),
        ensures
            session_wf(final(self)@),
            r is Ok <==> !old(self)@.closed && old(self)@.active is None && !was_admitted(
                old(self)@.admitted,
                id@,
            ),
            r is Ok ==> final(self)@ == (SessionView {
                active: Some(id),
                admitted: old(self)@.admitted.push(id),
                ..old(self)@
            }),
            r matches Err(e) ==> final(self)@ == old(self)@ && e == if old(self)@.closed {
                ExecutionError::SessionClosed
            } else if old(self)@.active is Some {
                ExecutionError::SessionBusy
            } else {
                ExecutionError::DuplicateExecution
            },
    {
        if self.closed {
            return Err(ExecutionError::SessionClosed);
        }
        if self.active.is_some() {
            return Err(ExecutionError::SessionBusy);
        }
        let mut i: usize = 0;
        while i < self.admitted.len()
            invariant
                i <= self.admitted.len(),
                self@ == old(self)@,
                session_wf(self@),
                !self@.closed,
                self@.active is None,
                forall|j: int| 0 <= j < i ==> #[trigger] self.admitted@[j]@ != id@,
            decreases self.admitted.len() - i,
        {
            if self.admitted[i].same(&id) {
                assert(self.admitted@[i as int]@ == id@);
                return Err(ExecutionError::DuplicateExecution);
            }
            i = i + 1;
        }
        let ghost before = self@;
        self.admitted.push(id.clone());
        self.active = Some(id);
        assert(self.admitted@[self.admitted@.len() - 1] == id);
        assert(self@ == (SessionView { active: Some(id), admitted: before.admitted.push(id), ..before }));
        Ok(())
    }

    /// Merges sparse `update` into the active execution's tool state.
    pub fn observe_tool(&mut self, execution: &ExecutionId, update: ToolCallUpdate) -> (r: Result<
        (),
        ExecutionError,
    >)
        requires
            session_wf(old(self)@),
        ensures
            session_wf(final(self)@),
            r is Ok <==> !old(self)@.closed && is_active(old(self)@, execution@),
            r is Ok ==> final(self)@ == (SessionView { tools: observe(old(self)@.tools, update@), ..old(self)@ }),
            r matches Err(e) ==> final(self)@ == old(self)@ && e == if old(self)@.closed {
                ExecutionError::SessionClosed
            } else {
                ExecutionError::ExecutionMismatch
            },
    {
        if self.closed {
            return Err(ExecutionError::SessionClosed);
        }
        if !self.is_active(execution) {
            return Err(ExecutionError::ExecutionMismatch);
        }
        let ghost before = self@;
        match self.find_tool(&update.id) {
            Some(i) => {
                let observation = self.tools[i].observation.merge(&update);
                let tool = ToolCall { id: self.tools[i].id.clone(), observation };
                self.tools.set(i, tool);
                assert(self@.tools =~= observe(before.tools, update@));
            },
            None => {
                let empty = ToolObservation {
                    title: None,
                    kind: None,
                    status: None,
                    locations: None,
                    content: None,
                };
                let observation = empty.merge(&update);
                let tool = ToolCall { id: update.id, observation };
                self.tools.push(tool);
                assert(self@.tools =~= observe(before.tools, update@));
            },
        }
        proof {
            let t = self@.tools;
            assert forall|a: int, b: int| 0 <= a < t.len() && 0 <= b < t.len() && a != b implies #[trigger] t[a].id@ != #[trigger] t[b].id@ by {
                if a < before.tools.len() && b < before.tools.len() {
                    assert(t[a].id == before.tools[a].id);
                    assert(t[b].id == before.tools[b].id);
                }
            }
        }
        Ok(())
    }

    /// Checks, without change, whether review `request` could be admitted now.
    pub fn validate_permission_admission(&self, request: &PermissionRequest) -> (r: Result<
        (),
        ExecutionError,
    >)
        requires
            session_wf(self@),
        ensures
            r is Ok <==> admissible(self@, request@),
            r matches Err(e) ==> e == admission_error(self@, request@),
    {
        if self.closed {
            return Err(ExecutionError::SessionClosed);
        }
        if !self.is_active(request.execution_id()) {
            return Err(ExecutionError::ExecutionMismatch);
        }
        if !request.is_pending() {
            return Err(ExecutionError::PermissionNotPending);
        }
        if self.find_permission(request.id()).is_some() {
            return Err(ExecutionError::DuplicatePermission);
        }
        Ok(())
    }

    /// Admits pending review `request` for an observed tool of the active execution.
    pub fn request_permission(&mut self, request: PermissionRequest) -> (r: Result<
        (),
        ExecutionError,
    >)
        requires
            session_wf(old(self)@),
        ensures
            session_wf(final(self)@),
            r is Ok <==> admissible(old(self)@, request@) && has_tool(old(self)@.tools, request@.tool_id@),
            r is Ok ==> final(self)@ == (SessionView {
                permissions: old(self)@.permissions.push(request@),
                ..old(self)@
            }),
            r matches Err(e) ==> final(self)@ == old(self)@ && e == if admissible(old(self)@, request@) {
                ExecutionError::ToolNotObserved
            } else {
                admission_error(old(self)@, request@)
            },
    {
        match self.validate_permission_admission(&request) {
            Err(e) => return Err(e),
            Ok(()) => {},
        }
        if self.find_tool(request.tool_id()).is_none() {
            return Err(ExecutionError::ToolNotObserved);
        }
        let ghost before = self@;
        self.permissions.push(request);
        assert(self@.permissions =~= before.permissions.push(request@));
        Ok(())
    }

    /// Resolves pending review `id` of `execution` by choosing offered `option`; returns
    /// the answered review.
    pub fn answer_permission(
        &mut self,
        execution: &ExecutionId,
        id: &PermissionId,
        option: &PermissionOptionId,
    ) -> (r: Result<PermissionRequest, ExecutionError>)
        requires
            session_wf(old(self)@),
        ensures
            session_wf(final(self)@),
            r is Ok <==> is_active(old(self)@, execution@) && is_pending(old(self)@.permissions, id@)
                && answered_state(old(self)@.permissions[permission_pos(old(self)@.permissions, id@)].options, option@) is Some,
            r matches Ok(p) ==> {
                let i = permission_pos(old(self)@.permissions, id@);
                let q = with_state(
                    old(self)@.permissions[i],
                    answered_state(old(self)@.permissions[i].options, option@)->0,
                );
                &&& p@ == q
                &&& final(self)@ == (SessionView { permissions: old(self)@.permissions.update(i, q), ..old(self)@ })
            },
            r matches Err(e) ==> final(self)@ == old(self)@ && e == if !is_active(old(self)@, execution@) {
                ExecutionError::ExecutionMismatch
            } else if !is_pending(old(self)@.permissions, id@) {
                ExecutionError::PermissionNotPending
            } else {
                ExecutionError::OptionNotOffered
            },
    {
        if !self.is_active(execution) {
            return Err(ExecutionError::ExecutionMismatch);
        }
        let i = match self.find_permission(id) {
            Some(i) => i,
            None => return Err(ExecutionError::PermissionNotPending),
        };
        let mut p = self.permissions[i].clone();
        match p.answer(option) {
            Err(e) => return Err(e),
            Ok(()) => {},
        }
        let ghost before = self@;
        self.permissions.set(i, p.clone());
        proof {
            assert(self@.permissions =~= before.permissions.update(i as int, p@));
            assert forall|a: int, b: int|
                0 <= a < self@.permissions.len() && 0 <= b < self@.permissions.len() && a != b
                implies #[trigger] self@.permissions[a].id@ != #[trigger] self@.permissions[b].id@ by {
                assert(self@.permissions[a].id == before.permissions[a].id);
                assert(self@.permissions[b].id == before.permissions[b].id);
            }
            assert forall|a: int| 0 <= a < self@.permissions.len() implies is_active(self@, #[trigger] self@.permissions[a].execution_id@) by {
                assert(self@.permissions[a].execution_id == before.permissions[a].execution_id);
            }
        }
        Ok(p)
    }

    fn cancel_at(&mut self, i: usize, reason: PermissionCancellationReason) -> (r: PermissionRequest)
        requires
            session_wf(old(self)@),
            i < old(self)@.permissions.len(),
            old(self)@.permissions[i as int].state is Pending,
        ensures
            r@ == with_state(old(self)@.permissions[i as int], PermissionStateView::Cancelled { reason }),
            final(self)@ == (SessionView {
                permissions: old(self)@.permissions.update(i as int, r@),
                ..old(self)@
            }),
    {
        let mut p = self.permissions[i].clone();
        let c = p.cancel(reason);
        assert(c is Ok);
        let ghost before = self@;
        self.permissions.set(i, p.clone());
        assert(self@.permissions =~= before.permissions.update(i as int, p@));
        p
    }

    /// Withdraws pending review `id` of `execution` for a single-review `reason`.
    /// Returns `None` when no such review is pending.
    pub fn cancel_permission(
        &mut self,
        execution: &ExecutionId,
        id: &PermissionId,
        reason: PermissionCancellationReason,
    ) -> (r: Result<Option<PermissionRequest>, ExecutionError>)
        requires
            session_wf(old(self)@),
        ensures
            session_wf(final(self)@),
            r is Ok <==> withdraws_single_review(reason) && !old(self)@.closed && is_active(old(self)@, execution@),
            r matches Ok(None) ==> final(self)@ == old(self)@ && !is_pending(old(self)@.permissions, id@),
            r matches Ok(Some(p)) ==> {
                let i = permission_pos(old(self)@.permissions, id@);
                let q = with_state(old(self)@.permissions[i], PermissionStateView::Cancelled { reason });
                &&& is_pending(old(self)@.permissions, id@)
                &&& p@ == q
                &&& final(self)@ == (SessionView { permissions: old(self)@.permissions.update(i, q), ..old(self)@ })
            },
            r matches Err(e) ==> final(self)@ == old(self)@ && e == if !withdraws_single_review(reason) {
                ExecutionError::InvalidPermissionCancellationReason
            } else if old(self)@.closed {
                ExecutionError::SessionClosed
            } else {
                ExecutionError::ExecutionMismatch
            },
    {
        if !reason.withdraws_single_review() {
            return Err(ExecutionError::InvalidPermissionCancellationReason);
        }
        if self.closed {
            return Err(ExecutionError::SessionClosed);
        }
        if !self.is_active(execution) {
            return Err(ExecutionError::ExecutionMismatch);
        }
        let i = match self.find_permission(id) {
            Some(i) => i,
            None => return Ok(None),
        };
        if !self.permissions[i].is_pending() {
            return Ok(None);
        }
        let ghost before = self@;
        let p = self.cancel_at(i, reason);
        proof {
            assert forall|a: int, b: int|
                0 <= a < self@.permissions.len() && 0 <= b < self@.permissions.len() && a != b
                implies #[trigger] self@.permissions[a].id@ != #[trigger] self@.permissions[b].id@ by {
                assert(self@.permissions[a].id == before.permissions[a].id);
                assert(self@.permissions[b].id == before.permissions[b].id);
            }
            assert forall|a: int| 0 <= a < self@.permissions.len() implies is_active(self@, #[trigger] self@.permissions[a].execution_id@) by {
                assert(self@.permissions[a].execution_id == before.permissions[a].execution_id);
            }
        }
        Ok(Some(p))
    }

    fn cancel_pending(&mut self, reason: PermissionCancellationReason) -> (r: Vec<PermissionRequest>)
        requires
            session_wf(old(self)@),
        ensures
            final(self)@ == (SessionView { permissions: cancel_all(old(self)@.permissions, reason), ..old(self)@ }),
            request_views(r@) == cancelled_list(old(self)@.permissions, reason),
            forall|i: int| 0 <= i < final(self)@.permissions.len() ==> !(#[trigger] final(self)@.permissions[i].state is Pending),
            session_wf(SessionView { closed: false, ..final(self)@ }),
    {
        let ghost before = self@;
        let mut out: Vec<PermissionRequest> = Vec::new();
        let mut i: usize = 0;
        while i < self.permissions.len()
            invariant
                session_wf(before),
                i <= self.permissions.len(),
                self.permissions@.len() == before.permissions.len(),
                self@ == (SessionView { permissions: self@.permissions, ..before }),
                forall|j: int| 0 <= j < i ==> #[trigger] self@.permissions[j] == cancel_all(before.permissions, reason)[j],
                forall|j: int| i <= j < self@.permissions.len() ==> #[trigger] self@.permissions[j] == before.permissions[j],
                request_views(out@) == cancelled_list(before.permissions.take(i as int), reason),
            decreases self.permissions.len() - i,
        {
            proof {
                lemma_cancelled_list_step(before.permissions, reason, i as int);
            }
            assert(self@.permissions[i as int] == self.permissions@[i as int]@);
            if self.permissions[i].is_pending() {
                let mut p = self.permissions[i].clone();
                let c = p.cancel(reason.clone());
                assert(c is Ok);
                let ghost old_out = out@;
                let ghost old_perms = self@.permissions;
                self.permissions.set(i, p.clone());
                assert(self@.permissions =~= old_perms.update(i as int, p@));
                out.push(p);
                assert(out@ == old_out.push(p));
                assert(request_views(out@) =~= request_views(old_out).push(p@));
            }
            i = i + 1;
        }
        assert(before.permissions.take(before.permissions.len() as int) == before.permissions);
        assert(self@.permissions =~= cancel_all(before.permissions, reason));
        proof {
            let v = SessionView { closed: false, ..self@ };
            assert forall|a: int, b: int|
                0 <= a < v.permissions.len() && 0 <= b < v.permissions.len() && a != b
                implies #[trigger] v.permissions[a].id@ != #[trigger] v.permissions[b].id@ by {
                assert(v.permissions[a].id == before.permissions[a].id);
                assert(v.permissions[b].id == before.permissions[b].id);
            }
            assert forall|a: int| 0 <= a < v.permissions.len() implies is_active(v, #[trigger] v.permissions[a].execution_id@) by {
                assert(v.permissions[a].execution_id == before.permissions[a].execution_id);
            }
        }
        out
    }

    /// Withdraws every pending review of `execution` for a single-review `reason`, in
    /// admission order; resolved identities stay recorded.
    pub fn cancel_permissions(&mut self, execution: &ExecutionId, reason: PermissionCancellationReason) -> (r:
        Result<Vec<PermissionRequest>, ExecutionError>)
        requires
            session_wf(old(self)@),
        ensures
            session_wf(final(self)@),
            r is Ok <==> withdraws_single_review(reason) && !old(self)@.closed && is_active(old(self)@, execution@),
            r matches Ok(v) ==> request_views(v@) == cancelled_list(old(self)@.permissions, reason)
                && final(self)@ == (SessionView { permissions: cancel_all(old(self)@.permissions, reason), ..old(self)@ }),
            r matches Err(e) ==> final(self)@ == old(self)@ && e == if !withdraws_single_review(reason) {
                ExecutionError::InvalidPermissionCancellationReason
            } else if old(self)@.closed {
                ExecutionError::SessionClosed
            } else {
                ExecutionError::ExecutionMismatch
            },
    {
        if !reason.withdraws_single_review() {
            return Err(ExecutionError::InvalidPermissionCancellationReason);
        }
        if self.closed {
            return Err(ExecutionError::SessionClosed);
        }
        if !self.is_active(execution) {
            return Err(ExecutionError::ExecutionMismatch);
        }
        Ok(self.cancel_pending(reason))
    }

    fn close_now(&mut self, reason: PermissionCancellationReason) -> (r: SessionCloseOutcome)
        requires
            session_wf(old(self)@),
            !old(self)@.closed,
        ensures
            session_wf(final(self)@),
            final(self)@ == (SessionView {
                closed: true,
                permissions: cancel_all(old(self)@.permissions, reason),
                ..old(self)@
            }),
            r.closure == Some(SessionClosure { session_id: old(self)@.id, execution: old(self)@.active, reason }),
            request_views(r.permissions@) == cancelled_list(old(self)@.permissions, reason),
    {
        let cancelled = self.cancel_pending(reason.clone());
        self.closed = true;
        let closure = SessionClosure {
            session_id: self.id.clone(),
            execution: match &self.active {
                Some(a) => Some(a.clone()),
                None => None,
            },
            reason,
        };
        SessionCloseOutcome { closure: Some(closure), permissions: cancelled }
    }

    /// Closes the session for `reason`, cancelling every pending review. A repeated
    /// close returns no evidence. Refuses causes that cannot close a session and
    /// `ExecutionFailed`, which belongs to execution-scoped closure.
    pub fn close(&mut self, reason: PermissionCancellationReason) -> (r: Result<SessionCloseOutcome, ExecutionError>)
        requires
            session_wf(old(self)@),
        ensures
            session_wf(final(self)@),
            r is Ok <==> closes_session(reason) && !(reason is ExecutionFailed),
            r is Err ==> final(self)@ == old(self)@ && r == Err::<SessionCloseOutcome, _>(ExecutionError::InvalidSessionClosureReason),
            r matches Ok(o) ==> close_effect(old(self)@, final(self)@, o, reason),
    {
        if !reason.closes_session() || reason.is_execution_failed() {
            return Err(ExecutionError::InvalidSessionClosureReason);
        }
        if self.closed {
            let o = SessionCloseOutcome { closure: None, permissions: Vec::new() };
            assert(request_views(o.permissions@) =~= Seq::empty());
            return Ok(o);
        }
        Ok(self.close_now(reason))
    }

    /// Closes the session only while `execution` is active. Refuses causes that
    /// cannot close a session or a stale target, without change.
    pub fn close_execution(&mut self, execution: &ExecutionId, reason: PermissionCancellationReason) -> (r:
        Result<SessionCloseOutcome, ExecutionError>)
        requires
            session_wf(old(self)@),
        ensures
            session_wf(final(self)@),
            r is Ok <==> closes_session(reason) && is_active(old(self)@, execution@),
            r matches Err(e) ==> final(self)@ == old(self)@ && e == if !closes_session(reason) {
                ExecutionError::InvalidSessionClosureReason
            } else {
                ExecutionError::ExecutionMismatch
            },
            r matches Ok(o) ==> close_effect(old(self)@, final(self)@, o, reason),
    {
        if !reason.closes_session() {
            return Err(ExecutionError::InvalidSessionClosureReason);
        }
        if !self.is_active(execution) {
            return Err(ExecutionError::ExecutionMismatch);
        }
        if self.closed {
            let o = SessionCloseOutcome { closure: None, permissions: Vec::new() };
            assert(request_views(o.permissions@) =~= Seq::empty());
            return Ok(o);
        }
        Ok(self.close_now(reason))
    }

    /// Settles active `execution` with `result`, cancelling remaining reviews with the
    /// failure cause or `ExecutionFinished`, and releasing its tools and reviews.
    pub fn finish_execution(
        &mut self,
        execution: &ExecutionId,
        result: Result<ExecutionOutcome, PermissionCancellationReason>,
    ) -> (r: Result<(ExecutionFinish, Vec<PermissionRequest>), ExecutionError>)
        requires
            session_wf(old(self)@),
        ensures
            session_wf(final(self)@),
            r is Ok <==> is_active(old(self)@, execution@) && (result matches Err(c) ==> fails_execution(c, old(self)@.closed)),
            r matches Err(e) ==> final(self)@ == old(self)@ && e == if !is_active(old(self)@, execution@) {
                ExecutionError::ExecutionMismatch
            } else {
                ExecutionError::InvalidExecutionFailureReason
            },
            r matches Ok((f, v)) ==> {
                &&& f == (ExecutionFinish { session_id: old(self)@.id, execution_id: old(self)@.active->0, result })
                &&& request_views(v@) == cancelled_list(old(self)@.permissions, finish_cause(result))
                &&& final(self)@ == (SessionView { active: None, tools: Seq::empty(), permissions: Seq::empty(), ..old(self)@ })
            },
    {
        if !self.is_active(execution) {
            return Err(ExecutionError::ExecutionMismatch);
        }
        let cause = match &result {
            Ok(_) => PermissionCancellationReason::ExecutionFinished,
            Err(c) => {
                if !c.fails_execution(self.closed) {
                    return Err(ExecutionError::InvalidExecutionFailureReason);
                }
                c.clone()
            },
        };
        let ghost before = self@;
        let cancelled = self.cancel_pending(cause);
        let active = self.active.take().unwrap();
        self.tools = Vec::new();
        self.permissions = Vec::new();
        let ghost after = self@;
        assert(after.tools =~= Seq::<ToolCallView>::empty());
        assert(after.permissions =~= Seq::<PermissionRequestView>::empty());
        let finish = ExecutionFinish { session_id: self.id.clone(), execution_id: active, result };
        Ok((finish, cancelled))
    }
}

/// Whether `request` could be admitted to session `v` (its tool aside).
pub open spec fn admissible(v: SessionView, request: PermissionRequestView) -> bool {
    !v.closed && is_active(v, request.execution_id@) && request.state is Pending && !has_permission(
        v.permissions,
        request.id@,
    )
}

/// The first failed admission check for `request` in `v`.
pub open spec fn admission_error(v: SessionView, request: PermissionRequestView) -> ExecutionError {
    if v.closed {
        ExecutionError::SessionClosed
    } else if !is_active(v, request.execution_id@) {
        ExecutionError::ExecutionMismatch
    } else if !(request.state is Pending) {
        ExecutionError::PermissionNotPending
    } else {
        ExecutionError::DuplicatePermission
    }
}

/// The cause with which settlement cancels remaining reviews.
pub open spec fn finish_cause(result: Result<ExecutionOutcome, PermissionCancellationReason>) -> PermissionCancellationReason {
    match result {
        Ok(_) => PermissionCancellationReason::ExecutionFinished,
        Err(c) => c,
    }
}

/// Effect of an accepted close: an open session closes and cancels every pending
/// review; an already closed one is unchanged and yields no evidence.
pub open spec fn close_effect(before: SessionView, after: SessionView, o: SessionCloseOutcome, reason: PermissionCancellationReason) -> bool {
    if before.closed {
        after == before && o.closure is None && o.permissions@.len() == 0
    } else {
        &&& after == (SessionView { closed: true, permissions: cancel_all(before.permissions, reason), ..before })
        &&& o.closure == Some(SessionClosure { session_id: before.id, execution: before.active, reason })
        &&& request_views(o.permissions@) == cancelled_list(before.permissions, reason)
    }
}

} // verus!
