//! Scheduling decisions of accepted work, as recorded evidence.
use crate::agent_execution::permissions::ActionContext;
use crate::agent_execution::sessions::storage::{initiator, initiator_of, InvocationSchedulingEvent};
use crate::domain::ids::ExecutionId;
use crate::domain::scheduling::{
    legal_edge, target_agrees, InvocationKind, InvocationStage, SchedulingCause, SchedulingTransition,
};
use vstd::prelude::*;

verus! {

/// The scheduling event a runtime decision records: the domain transition of a
/// legal edge, with its optional verified caller.
pub fn scheduling_event(
    kind: InvocationKind,
    target: Option<ExecutionId>,
    before: Option<InvocationStage>,
    stage: InvocationStage,
    cause: SchedulingCause,
    actor: Option<ActionContext>,
) -> (r: InvocationSchedulingEvent)
    requires
        target_agrees(kind, target is Some),
        legal_edge(before, stage, cause, initiator_of(actor)),
    ensures
        r == (InvocationSchedulingEvent { kind, target, before, stage, cause, actor }),
{
    let who = initiator(&actor);
    let transition = match SchedulingTransition::new(kind, target, before, stage, cause, who) {
        Ok(t) => t,
        Err(_) => {
            proof {
                assert(false);
            }
            return InvocationSchedulingEvent { kind, target: None, before, stage, cause, actor };
        },
    };
    InvocationSchedulingEvent {
        kind: transition.kind(),
        target: match transition.target() {
            Some(t) => Some(t.clone()),
            None => None,
        },
        before: transition.before(),
        stage: transition.stage(),
        cause: transition.cause(),
        actor,
    }
}

/// Result of removing an input from the local pending queue.
#[derive(Clone, Copy, Debug, PartialEq, Eq, Structural)]
pub enum QueueRemoval {
    /// Removed before dispatch; its receipt resolves Closed and evidence remains.
    Removed,
    /// Unknown, already removed, dispatched or injected; nothing was undone.
    NotPending,
}

} // verus!
