//! Typed session snapshot records and storage failures.
use crate::agent_execution::agents::error_limits::{compact_diagnostic, compacted};
use crate::agent_execution::permissions::ActionContext;
use crate::domain::ids::ExecutionId;
use crate::domain::scheduling::{
    chained, legal_cancellation, legal_edge, target_agrees, InvocationCancellation, InvocationKind,
    InvocationStage, SchedulingCause, SchedulingInitiator, SchedulingTransition, SchedulingTransitionError,
};
use vstd::prelude::*;

verus! {

/// Why session storage failed.
#[derive(Debug, PartialEq, Eq)]
pub enum StorageError {
    /// Another writer holds the session.
    Busy,
    /// The storage medium failed.
    Io(String),
    /// Saved evidence is inconsistent.
    Corrupt(String),
    /// Saved evidence belongs to another session.
    IdentityMismatch,
}

impl Clone for StorageError {
    fn clone(&self) -> (r: Self)
        ensures
            r == *self,
    {
        match self {
            StorageError::Busy => StorageError::Busy,
            StorageError::Io(s) => StorageError::Io(s.clone()),
            StorageError::Corrupt(s) => StorageError::Corrupt(s.clone()),
            StorageError::IdentityMismatch => StorageError::IdentityMismatch,
        }
    }
}

impl StorageError {
    /// Compacts an external diagnostic to at most 4 KiB before it is retained;
    /// the kind is unchanged.
    pub fn bounded(self) -> (r: Self)
        ensures
            match self {
                StorageError::Io(t) => r matches StorageError::Io(u) && u@ == compacted(t@),
                StorageError::Corrupt(t) => r matches StorageError::Corrupt(u) && u@ == compacted(t@),
                _ => r == self,
            },
    {
        match self {
            StorageError::Io(value) => StorageError::Io(compact_diagnostic(value)),
            StorageError::Corrupt(value) => StorageError::Corrupt(compact_diagnostic(value)),
            other => other,
        }
    }
}

/// The initiator kind an optional verified caller stands for.
pub open spec fn initiator_of(actor: Option<ActionContext>) -> SchedulingInitiator {
    if actor is Some {
        SchedulingInitiator::Caller
    } else {
        SchedulingInitiator::Automatic
    }
}

/// The initiator kind of an optional verified caller.
pub fn initiator(actor: &Option<ActionContext>) -> (r: SchedulingInitiator)
    ensures
        r == initiator_of(*actor),
{
    match actor {
        Some(_) => SchedulingInitiator::Caller,
        None => SchedulingInitiator::Automatic,
    }
}

/// Cause and caller of a stop captured by an admitted invocation's owner.
#[derive(Debug, PartialEq, Eq)]
pub struct InvocationCancellationEvent {
    /// Why the owner stopped the invocation.
    pub cause: SchedulingCause,
    /// Verified caller of an explicit stop; absent for an automatic one.
    pub actor: Option<ActionContext>,
}

impl Clone for InvocationCancellationEvent {
    fn clone(&self) -> (r: Self)
        ensures
            r == *self,
    {
        let actor = match &self.actor {
            Some(a) => Some(a.clone()),
            None => None,
        };
        InvocationCancellationEvent { cause: self.cause, actor }
    }
}

impl InvocationCancellationEvent {
    /// Validates this cause against the presence of a caller; Corrupt when the pair
    /// cannot describe a supported stop.
    pub fn cancellation(&self) -> (r: Result<InvocationCancellation, StorageError>)
        ensures
            r is Ok <==> legal_cancellation(self.cause, initiator_of(self.actor)),
            r matches Ok(c) ==> c.spec_cause() == self.cause && c.spec_initiator() == initiator_of(self.actor),
            r matches Err(e) ==> e is Corrupt,
    {
        match InvocationCancellation::new(self.cause, initiator(&self.actor)) {
            Ok(c) => Ok(c),
            Err(_) => Err(StorageError::Corrupt("illegal invocation cancellation".to_owned())),
        }
    }
}

/// Retained scheduling evidence of one input, mapped from a local decision.
#[derive(Debug, PartialEq, Eq)]
pub struct InvocationSchedulingEvent {
    /// Priority with which the input was admitted.
    pub kind: InvocationKind,
    /// Active execution selected for attempted native injection.
    pub target: Option<ExecutionId>,
    /// Previous local stage, `None` for the first event.
    pub before: Option<InvocationStage>,
    /// Local stage after this event.
    pub stage: InvocationStage,
    /// Lifecycle cause of the event.
    pub cause: SchedulingCause,
    /// Verified initiator of an explicit action; `None` for automatic causes.
    pub actor: Option<ActionContext>,
}

impl Clone for InvocationSchedulingEvent {
    fn clone(&self) -> (r: Self)
        ensures
            r == *self,
    {
        InvocationSchedulingEvent {
            kind: self.kind,
            target: match &self.target {
                Some(t) => Some(t.clone()),
                None => None,
            },
            before: self.before,
            stage: self.stage,
            cause: self.cause,
            actor: match &self.actor {
                Some(a) => Some(a.clone()),
                None => None,
            },
        }
    }
}

/// Whether a scheduling event describes a legal edge of the domain.
pub open spec fn event_legal(e: InvocationSchedulingEvent) -> bool {
    target_agrees(e.kind, e.target is Some) && legal_edge(e.before, e.stage, e.cause, initiator_of(e.actor))
}

/// The domain transition a legal scheduling event describes.
pub open spec fn describes(e: InvocationSchedulingEvent, t: SchedulingTransition) -> bool {
    &&& t.spec_kind() == e.kind
    &&& t.spec_target() == e.target
    &&& t.spec_before() == e.before
    &&& t.spec_stage() == e.stage
    &&& t.spec_cause() == e.cause
    &&& t.spec_initiator() == initiator_of(e.actor)
}

impl InvocationSchedulingEvent {
    /// Validates this event through the domain transition rules: TargetMismatch for
    /// a kind that contradicts its target, IllegalTransition for an illegal edge.
    pub fn transition(&self) -> (r: Result<SchedulingTransition, SchedulingTransitionError>)
        ensures
            r is Ok <==> event_legal(*self),
            r matches Ok(t) ==> describes(*self, t),
            r matches Err(e) ==> e == if !target_agrees(self.kind, self.target is Some) {
                SchedulingTransitionError::TargetMismatch
            } else {
                SchedulingTransitionError::IllegalTransition
            },
    {
        let target = match &self.target {
            Some(t) => Some(t.clone()),
            None => None,
        };
        SchedulingTransition::new(self.kind, target, self.before, self.stage, self.cause, initiator(&self.actor))
    }

    /// Validates an ordered history: every event legal, and the edges chained from
    /// submission with one kind and target. The first illegal event's error comes
    /// first; a broken chain is BrokenHistory.
    pub fn validate_history(events: &[Self]) -> (r: Result<(), SchedulingTransitionError>)
        ensures
            r is Ok <==> (forall|i: int| 0 <= i < events@.len() ==> event_legal(#[trigger] events@[i])) && exists|
                h: Seq<SchedulingTransition>,
            |
                h.len() == events@.len() && (forall|i: int| 0 <= i < h.len() ==> describes(events@[i], #[trigger] h[i]))
                    && chained(h),
    {
        let mut transitions: Vec<SchedulingTransition> = Vec::new();
        let mut i: usize = 0;
        while i < events.len()
            invariant
                i <= events@.len(),
                transitions@.len() == i,
                forall|j: int| 0 <= j < i ==> event_legal(#[trigger] events@[j]),
                forall|j: int| 0 <= j < i ==> describes(events@[j], #[trigger] transitions@[j]),
            decreases events@.len() - i,
        {
            match events[i].transition() {
                Ok(t) => transitions.push(t),
                Err(e) => return Err(e),
            }
            i = i + 1;
        }
        let r = SchedulingTransition::validate_history(transitions.as_slice());
        proof {
            let h = transitions@;
            if r is Ok {
                assert(h.len() == events@.len() && (forall|i: int| 0 <= i < h.len() ==> describes(events@[i], #[trigger] h[i])) && chained(h));
            } else {
                assert forall|h2: Seq<SchedulingTransition>| h2.len() == events@.len() && (forall|i: int|
                    0 <= i < h2.len() ==> describes(events@[i], #[trigger] h2[i])) implies !chained(h2) by {
                    lemma_describes_same_chain(events@, h, h2);
                }
            }
        }
        r
    }
}

proof fn lemma_describes_same_chain(
    events: Seq<InvocationSchedulingEvent>,
    h1: Seq<SchedulingTransition>,
    h2: Seq<SchedulingTransition>,
)
    requires
        h1.len() == events.len(),
        h2.len() == events.len(),
        forall|i: int| 0 <= i < h1.len() ==> describes(events[i], #[trigger] h1[i]),
        forall|i: int| 0 <= i < h2.len() ==> describes(events[i], #[trigger] h2[i]),
    ensures
        chained(h1) == chained(h2),
{
    assert forall|j: int| 0 <= j < h1.len() implies #[trigger] crate::domain::scheduling::edge_chains(h1, j)
        == crate::domain::scheduling::edge_chains(h2, j) by {
        assert(describes(events[j], h1[j]) && describes(events[j], h2[j]));
        assert(describes(events[0], h1[0]) && describes(events[0], h2[0]));
        if j > 0 {
            assert(describes(events[j - 1], h1[j - 1]) && describes(events[j - 1], h2[j - 1]));
        }
    }
    if chained(h1) {
        assert forall|j: int| 0 <= j < h2.len() implies #[trigger] crate::domain::scheduling::edge_chains(h2, j) by {
            assert(crate::domain::scheduling::edge_chains(h1, j));
        }
    }
    if chained(h2) {
        assert forall|j: int| 0 <= j < h1.len() implies #[trigger] crate::domain::scheduling::edge_chains(h1, j) by {
            assert(crate::domain::scheduling::edge_chains(h2, j));
        }
    }
}

} // verus!
