//! Scheduling of submitted inputs: delivery modes, lifecycle stages, and the legal
//! transitions between them.
use super::ids::ExecutionId;
use vstd::prelude::*;
use InvocationStage as S;
use SchedulingCause as C;
use SchedulingInitiator as I;

verus! {

/// Why the scheduler refused a submission.
#[derive(Clone, Copy, Debug, PartialEq, Eq, Structural)]
pub enum SchedulingError {
    /// The pending queue is full.
    QueueFull,
    /// The execution identity is already scheduled.
    Duplicate,
    /// Steering named no running execution.
    NoTarget,
}

/// How a submitted input is delivered.
#[derive(Clone, Copy, Debug, PartialEq, Eq, Structural)]
pub enum SubmissionMode {
    /// Queued behind the active execution.
    Queued,
    /// Delivered to the active execution at its next boundary.
    BoundarySteering,
    /// Injected by the provider into the active execution.
    NativeSteering,
}

/// Whether scheduled work is ordinary queued input or steering of a running target.
#[derive(Clone, Copy, Debug, PartialEq, Eq, Structural)]
pub enum InvocationKind {
    /// Ordinary queued input.
    Queued,
    /// Input that steers a running execution.
    Steering,
}

/// Scheduling stage of one submitted input.
#[derive(Clone, Copy, Debug, PartialEq, Eq, Structural)]
pub enum InvocationStage {
    /// Waiting in the queue.
    Queued,
    /// Dispatched to the provider.
    Running,
    /// Released after running or failing dispatch.
    Settled,
    /// Removed without settlement.
    Cancelled,
    /// Delivered into a running execution as steering.
    Injected,
}

/// Why a scheduling transition happened.
#[derive(Clone, Copy, Debug, PartialEq, Eq, Structural)]
pub enum SchedulingCause {
    /// A caller submitted the input.
    Submitted,
    /// The scheduler dispatched it.
    Dispatched,
    /// Its execution finished.
    Finished,
    /// Its caller withdrew it.
    Withdrawn,
    /// The session closed.
    SessionClosed,
    /// The scheduler stopped.
    RunnerStopped,
    /// Dispatch failed.
    DispatchFailed,
    /// The provider accepted it into the running target.
    SteeringInjected,
}

/// Who caused a scheduling transition.
#[derive(Clone, Copy, Debug, PartialEq, Eq, Structural)]
pub enum SchedulingInitiator {
    /// A verified caller.
    Caller,
    /// The SDK itself.
    Automatic,
}

/// Why a scheduling transition was refused.
#[derive(Clone, Copy, Debug, PartialEq, Eq, Structural)]
pub enum SchedulingTransitionError {
    /// The kind and steering target disagree.
    TargetMismatch,
    /// The stage change, cause and initiator do not form a legal edge.
    IllegalTransition,
    /// A history does not chain its stages.
    BrokenHistory,
}

/// Whether `kind` and `has_target` agree: steering has a target, queued input none.
pub open spec fn target_agrees(kind: InvocationKind, has_target: bool) -> bool {
    (kind == InvocationKind::Steering) == has_target
}

/// The legal scheduling edges.
pub open spec fn legal_edge(
    before: Option<InvocationStage>,
    stage: InvocationStage,
    cause: SchedulingCause,
    initiator: SchedulingInitiator,
) -> bool {
    match (before, stage, cause, initiator) {
        (None, S::Queued, C::Submitted, I::Caller) => true,
        (Some(S::Queued), S::Running, C::Dispatched, I::Automatic) => true,
        (Some(S::Running), S::Settled, C::Finished, I::Automatic) => true,
        (Some(S::Queued), S::Settled, C::DispatchFailed, I::Automatic) => true,
        (Some(S::Queued), S::Injected, C::SteeringInjected, I::Automatic) => true,
        (Some(S::Queued), S::Cancelled, C::Withdrawn, I::Caller) => true,
        (Some(S::Queued), S::Cancelled, C::SessionClosed, I::Caller) => true,
        (Some(S::Queued), S::Cancelled, C::RunnerStopped, I::Automatic) => true,
        (Some(S::Running), S::Cancelled, C::Withdrawn, I::Caller) => true,
        (Some(S::Running), S::Cancelled, C::SessionClosed, I::Caller) => true,
        (Some(S::Running), S::Cancelled, C::RunnerStopped, I::Automatic) => true,
        _ => false,
    }
}

fn is_legal_edge(
    before: Option<InvocationStage>,
    stage: InvocationStage,
    cause: SchedulingCause,
    initiator: SchedulingInitiator,
) -> (r: bool)
    ensures
        r == legal_edge(before, stage, cause, initiator),
{
    match (before, stage, cause, initiator) {
        (None, S::Queued, C::Submitted, I::Caller) => true,
        (Some(S::Queued), S::Running, C::Dispatched, I::Automatic) => true,
        (Some(S::Running), S::Settled, C::Finished, I::Automatic) => true,
        (Some(S::Queued), S::Settled, C::DispatchFailed, I::Automatic) => true,
        (Some(S::Queued), S::Injected, C::SteeringInjected, I::Automatic) => true,
        (Some(S::Queued), S::Cancelled, C::Withdrawn, I::Caller) => true,
        (Some(S::Queued), S::Cancelled, C::SessionClosed, I::Caller) => true,
        (Some(S::Queued), S::Cancelled, C::RunnerStopped, I::Automatic) => true,
        (Some(S::Running), S::Cancelled, C::Withdrawn, I::Caller) => true,
        (Some(S::Running), S::Cancelled, C::SessionClosed, I::Caller) => true,
        (Some(S::Running), S::Cancelled, C::RunnerStopped, I::Automatic) => true,
        _ => false,
    }
}

/// One validated scheduling edge of one submitted input.
#[derive(Debug, PartialEq, Eq)]
pub struct SchedulingTransition {
    kind: InvocationKind,
    target: Option<ExecutionId>,
    before: Option<InvocationStage>,
    stage: InvocationStage,
    cause: SchedulingCause,
    initiator: SchedulingInitiator,
}

impl Clone for SchedulingTransition {
    fn clone(&self) -> (r: Self)
        ensures
            r == *self,
    {
        SchedulingTransition {
            kind: self.kind,
            target: match &self.target {
                Some(t) => Some(t.clone()),
                None => None,
            },
            before: self.before,
            stage: self.stage,
            cause: self.cause,
            initiator: self.initiator,
        }
    }
}

impl SchedulingTransition {
    /// Delivery kind.
    pub closed spec fn spec_kind(self) -> InvocationKind {
        self.kind
    }

    /// Steering target.
    pub closed spec fn spec_target(self) -> Option<ExecutionId> {
        self.target
    }

    /// Stage before.
    pub closed spec fn spec_before(self) -> Option<InvocationStage> {
        self.before
    }

    /// Stage after.
    pub closed spec fn spec_stage(self) -> InvocationStage {
        self.stage
    }

    /// Cause.
    pub closed spec fn spec_cause(self) -> SchedulingCause {
        self.cause
    }

    /// Initiator.
    pub closed spec fn spec_initiator(self) -> SchedulingInitiator {
        self.initiator
    }

    /// A scheduling edge; refuses a kind that contradicts its target, then an edge
    /// that is not legal.
    pub fn new(
        kind: InvocationKind,
        target: Option<ExecutionId>,
        before: Option<InvocationStage>,
        stage: InvocationStage,
        cause: SchedulingCause,
        initiator: SchedulingInitiator,
    ) -> (r: Result<Self, SchedulingTransitionError>)
        ensures
            r is Ok <==> target_agrees(kind, target is Some) && legal_edge(before, stage, cause, initiator),
            r matches Ok(t) ==> t.spec_kind() == kind && t.spec_target() == target && t.spec_before() == before
                && t.spec_stage() == stage && t.spec_cause() == cause && t.spec_initiator() == initiator,
            r matches Err(e) ==> e == if !target_agrees(kind, target is Some) {
                SchedulingTransitionError::TargetMismatch
            } else {
                SchedulingTransitionError::IllegalTransition
            },
    {
        let steering = match kind {
            InvocationKind::Steering => true,
            InvocationKind::Queued => false,
        };
        if steering != target.is_some() {
            return Err(SchedulingTransitionError::TargetMismatch);
        }
        if !is_legal_edge(before, stage, cause, initiator) {
            return Err(SchedulingTransitionError::IllegalTransition);
        }
        Ok(SchedulingTransition { kind, target, before, stage, cause, initiator })
    }

    /// Delivery kind.
    pub fn kind(&self) -> (r: InvocationKind)
        ensures
            r == self.spec_kind(),
    {
        self.kind
    }

    /// Steering target, when steering.
    pub fn target(&self) -> (r: Option<&ExecutionId>)
        ensures
            r is Some <==> self.spec_target() is Some,
            r is Some ==> *r->0 == self.spec_target()->0,
    {
        match &self.target {
            Some(t) => Some(t),
            None => None,
        }
    }

    /// Stage before.
    pub fn before(&self) -> (r: Option<InvocationStage>)
        ensures
            r == self.spec_before(),
    {
        self.before
    }

    /// Stage after.
    pub fn stage(&self) -> (r: InvocationStage)
        ensures
            r == self.spec_stage(),
    {
        self.stage
    }

    /// Cause.
    pub fn cause(&self) -> (r: SchedulingCause)
        ensures
            r == self.spec_cause(),
    {
        self.cause
    }

    /// Initiator.
    pub fn initiator(&self) -> (r: SchedulingInitiator)
        ensures
            r == self.spec_initiator(),
    {
        self.initiator
    }

    /// Whether both edges describe the same input: same kind and same target text.
    pub fn same_input(&self, other: &Self) -> (r: bool)
        ensures
            r == same_input(*self, *other),
    {
        if self.kind != other.kind {
            return false;
        }
        match (&self.target, &other.target) {
            (None, None) => true,
            (Some(a), Some(b)) => a.same(b),
            _ => false,
        }
    }

    /// Whether `histories` chains from submission: the first edge starts from no
    /// stage, each later edge starts where the previous ended, and every edge keeps
    /// the first edge's kind and target.
    pub fn validate_history(history: &[SchedulingTransition]) -> (r: Result<(), SchedulingTransitionError>)
        ensures
            r is Ok <==> chained(history@),
            r matches Err(e) ==> e == SchedulingTransitionError::BrokenHistory,
    {
        let mut i: usize = 0;
        while i < history.len()
            invariant
                i <= history.len(),
                forall|j: int| 0 <= j < i ==> #[trigger] edge_chains(history@, j),
            decreases history.len() - i,
        {
            let ok = if i == 0 {
                history[0].before.is_none()
            } else {
                history[i].before == Some(history[i - 1].stage) && history[i].same_input(&history[0])
            };
            if !ok {
                assert(!edge_chains(history@, i as int));
                return Err(SchedulingTransitionError::BrokenHistory);
            }
            i = i + 1;
        }
        Ok(())
    }
}

/// Same kind and the same steering target text.
pub open spec fn same_input(a: SchedulingTransition, b: SchedulingTransition) -> bool {
    a.spec_kind() == b.spec_kind() && match (a.spec_target(), b.spec_target()) {
        (None, None) => true,
        (Some(x), Some(y)) => x@ == y@,
        _ => false,
    }
}

/// Whether edge `j` of `h` continues the history.
pub open spec fn edge_chains(h: Seq<SchedulingTransition>, j: int) -> bool {
    if j == 0 {
        h[0].spec_before() is None
    } else {
        h[j].spec_before() == Some(h[j - 1].spec_stage()) && same_input(h[j], h[0])
    }
}

/// Whether every edge of `h` continues the history.
pub open spec fn chained(h: Seq<SchedulingTransition>) -> bool {
    forall|j: int| 0 <= j < h.len() ==> #[trigger] edge_chains(h, j)
}

/// Whether `cause` and `initiator` describe a legal stop of a submitted input.
pub open spec fn legal_cancellation(cause: SchedulingCause, initiator: SchedulingInitiator) -> bool {
    match (cause, initiator) {
        (SchedulingCause::Withdrawn, SchedulingInitiator::Caller) => true,
        (SchedulingCause::SessionClosed, SchedulingInitiator::Caller) => true,
        (SchedulingCause::RunnerStopped, SchedulingInitiator::Automatic) => true,
        _ => false,
    }
}

/// A validated cause and initiator of a stopped input.
#[derive(Clone, Copy, Debug, PartialEq, Eq, Structural)]
pub struct InvocationCancellation {
    cause: SchedulingCause,
    initiator: SchedulingInitiator,
}

impl InvocationCancellation {
    /// Cause.
    pub closed spec fn spec_cause(self) -> SchedulingCause {
        self.cause
    }

    /// Initiator.
    pub closed spec fn spec_initiator(self) -> SchedulingInitiator {
        self.initiator
    }

    /// A stop; refuses a cause the initiator cannot have.
    pub fn new(cause: SchedulingCause, initiator: SchedulingInitiator) -> (r: Result<Self, SchedulingTransitionError>)
        ensures
            r is Ok <==> legal_cancellation(cause, initiator),
            r matches Ok(c) ==> c.spec_cause() == cause && c.spec_initiator() == initiator,
            r matches Err(e) ==> e == SchedulingTransitionError::IllegalTransition,
    {
        let ok = match (cause, initiator) {
            (SchedulingCause::Withdrawn, SchedulingInitiator::Caller) => true,
            (SchedulingCause::SessionClosed, SchedulingInitiator::Caller) => true,
            (SchedulingCause::RunnerStopped, SchedulingInitiator::Automatic) => true,
            _ => false,
        };
        if !ok {
            return Err(SchedulingTransitionError::IllegalTransition);
        }
        Ok(InvocationCancellation { cause, initiator })
    }

    /// Cause.
    pub fn cause(&self) -> (r: SchedulingCause)
        ensures
            r == self.spec_cause(),
    {
        self.cause
    }

    /// Initiator.
    pub fn initiator(&self) -> (r: SchedulingInitiator)
        ensures
            r == self.spec_initiator(),
    {
        self.initiator
    }
}

/// Whether `after` reorders `before`: same length, no repeated identity, and every
/// identity of `after` taken from `before`.
pub open spec fn reorders(before: Seq<ExecutionId>, after: Seq<ExecutionId>) -> bool {
    &&& before.len() == after.len()
    &&& before.len() <= 1024
    &&& forall|i: int, j: int|
        0 <= i < after.len() && 0 <= j < after.len() && i != j ==> #[trigger] after[i]@ != #[trigger] after[j]@
    &&& forall|i: int| 0 <= i < after.len() ==> in_order(before, #[trigger] after[i])
}

/// Whether an identity with the text of `x` occurs in `order`.
pub open spec fn in_order(order: Seq<ExecutionId>, x: ExecutionId) -> bool {
    exists|j: int| 0 <= j < order.len() && #[trigger] order[j]@ == x@
}

/// A complete replacement of the pending order.
#[derive(Debug, PartialEq, Eq)]
pub struct QueueOrderChange {
    before: Vec<ExecutionId>,
    after: Vec<ExecutionId>,
}

impl QueueOrderChange {
    /// Largest number of pending inputs.
    pub const MAX_PENDING: usize = 1024;

    /// Order before.
    pub closed spec fn spec_before(self) -> Seq<ExecutionId> {
        self.before@
    }

    /// Order after.
    pub closed spec fn spec_after(self) -> Seq<ExecutionId> {
        self.after@
    }

    /// A replacement order; refused unless `after` reorders `before`.
    pub fn new(before: Vec<ExecutionId>, after: Vec<ExecutionId>) -> (r: Result<Self, SchedulingTransitionError>)
        ensures
            r is Ok <==> reorders(before@, after@),
            r matches Ok(c) ==> c.spec_before() == before@ && c.spec_after() == after@,
            r matches Err(e) ==> e == SchedulingTransitionError::IllegalTransition,
    {
        if before.len() != after.len() || before.len() > 1024 {
            return Err(SchedulingTransitionError::IllegalTransition);
        }
        let mut i: usize = 0;
        while i < after.len()
            invariant
                i <= after.len(),
                before@.len() == after@.len(),
                forall|a: int, b: int|
                    0 <= a < i && 0 <= b < after@.len() && a != b ==> #[trigger] after@[a]@ != #[trigger] after@[b]@,
                forall|a: int| 0 <= a < i ==> in_order(before@, #[trigger] after@[a]),
            decreases after.len() - i,
        {
            let mut found = false;
            let mut j: usize = 0;
            while j < before.len()
                invariant
                    i < after.len(),
                    j <= before.len(),
                    found ==> in_order(before@, after@[i as int]),
                    !found ==> forall|k: int| 0 <= k < j ==> #[trigger] before@[k]@ != after@[i as int]@,
                decreases before.len() - j,
            {
                if before[j].same(&after[i]) {
                    assert(before@[j as int]@ == after@[i as int]@);
                    found = true;
                }
                j = j + 1;
            }
            if !found {
                assert(!in_order(before@, after@[i as int]));
                return Err(SchedulingTransitionError::IllegalTransition);
            }
            let mut k: usize = 0;
            while k < after.len()
                invariant
                    i < after.len(),
                    k <= after.len(),
                    forall|b: int| 0 <= b < k && b != i ==> after@[i as int]@ != #[trigger] after@[b]@,
                decreases after.len() - k,
            {
                if k != i && after[k].same(&after[i]) {
                    assert(after@[k as int]@ == after@[i as int]@);
                    return Err(SchedulingTransitionError::IllegalTransition);
                }
                k = k + 1;
            }
            i = i + 1;
        }
        Ok(QueueOrderChange { before, after })
    }

    /// Order before.
    pub fn before(&self) -> (r: &[ExecutionId])
        ensures
            r@ == self.spec_before(),
    {
        self.before.as_slice()
    }

    /// Order after.
    pub fn after(&self) -> (r: &[ExecutionId])
        ensures
            r@ == self.spec_after(),
    {
        self.after.as_slice()
    }

    /// Whether the order is left as it was.
    pub fn is_unchanged(&self) -> (r: bool)
        ensures
            r == (self.spec_before().len() == self.spec_after().len() && forall|i: int|
                0 <= i < self.spec_before().len() ==> #[trigger] self.spec_before()[i]@ == self.spec_after()[i]@),
    {
        if self.before.len() != self.after.len() {
            return false;
        }
        let mut i: usize = 0;
        while i < self.before.len()
            invariant
                i <= self.before.len(),
                self.before@.len() == self.after@.len(),
                forall|j: int| 0 <= j < i ==> #[trigger] self.before@[j]@ == self.after@[j]@,
            decreases self.before.len() - i,
        {
            if !self.before[i].same(&self.after[i]) {
                return false;
            }
            i = i + 1;
        }
        true
    }
}

} // verus!
