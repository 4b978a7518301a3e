//! Decisions the invocation runner takes between its awaits: which stop settles an
//! input, which evidence it records, and how later failures keep a known result.
use super::attachment::AttachmentFailureCode;
use super::error_limits::bounded_as;
use super::AgentError;
use crate::agent_execution::executions::ExecutionUpdate;
use crate::agent_execution::permissions::{same_context, ActionContext};
use crate::agent_execution::providers::CloseOutcome;
use crate::agent_execution::sessions::storage::InvocationCancellationEvent;
use crate::agent_execution::sessions::StorageError;
use crate::domain::executions::ExecutionOutcome;
use crate::domain::ids::ExecutionId;
use crate::domain::scheduling::{InvocationKind, InvocationStage, SchedulingCause, SubmissionMode};
use vstd::prelude::*;

verus! {

/// `result` with a later storage failure retained beside it.
pub open spec fn after_storage(
    result: Result<ExecutionOutcome, AgentError>,
    failure: Option<StorageError>,
) -> Result<ExecutionOutcome, AgentError> {
    match failure {
        None => result,
        Some(error) => Err(AgentError::StorageAfterExecution { error, execution_result: Box::new(result) }),
    }
}

/// Keeps `result` and retains a later storage `failure` beside it.
pub fn with_storage_failure(
    result: Result<ExecutionOutcome, AgentError>,
    failure: Option<StorageError>,
) -> (r: Result<ExecutionOutcome, AgentError>)
    ensures
        r == after_storage(result, failure),
{
    match failure {
        None => result,
        Some(error) => Err(AgentError::StorageAfterExecution { error, execution_result: Box::new(result) }),
    }
}

/// `operation` paired with the failure of its required cleanup, if cleanup failed.
pub open spec fn after_cleanup(operation: AgentError, cleanup: Result<CloseOutcome, AgentError>) -> AgentError {
    match cleanup {
        Ok(_) => operation,
        Err(c) => AgentError::OperationAndCleanupFailure {
            operation_error: Box::new(operation),
            cleanup_error: Box::new(c),
        },
    }
}

/// Pairs an operation failure with the failure of its required cleanup.
pub fn with_cleanup_failure(operation: AgentError, cleanup: Result<CloseOutcome, AgentError>) -> (r: AgentError)
    ensures
        r == after_cleanup(operation, cleanup),
{
    match cleanup {
        Ok(_) => operation,
        Err(c) => AgentError::OperationAndCleanupFailure {
            operation_error: Box::new(operation),
            cleanup_error: Box::new(c),
        },
    }
}

/// The category of a failed attachment attempt's error.
pub open spec fn failure_code_of(e: AgentError) -> AttachmentFailureCode {
    match e {
        AgentError::AuditFailure => AttachmentFailureCode::Audit,
        AgentError::AuditAndCleanupFailure => AttachmentFailureCode::Audit,
        AgentError::Storage(_) => AttachmentFailureCode::Storage,
        AgentError::StorageInitialization { .. } => AttachmentFailureCode::Storage,
        AgentError::CleanupUncertain => AttachmentFailureCode::Cleanup,
        AgentError::OperationAndCleanupFailure { .. } => AttachmentFailureCode::Cleanup,
        _ => AttachmentFailureCode::Provider,
    }
}

/// Classifies the failure of an attachment attempt: audit, storage, cleanup, or
/// else the provider.
pub fn attachment_failure_code(e: &AgentError) -> (r: AttachmentFailureCode)
    ensures
        r == failure_code_of(*e),
{
    match e {
        AgentError::AuditFailure | AgentError::AuditAndCleanupFailure => AttachmentFailureCode::Audit,
        AgentError::Storage(_) | AgentError::StorageInitialization { .. } => AttachmentFailureCode::Storage,
        AgentError::CleanupUncertain | AgentError::OperationAndCleanupFailure { .. } => AttachmentFailureCode::Cleanup,
        _ => AttachmentFailureCode::Provider,
    }
}

/// The stop that settles a dispatched input: its owner's first stop, when the
/// execution never started, history recorded it cancelled, or it ended Closed.
pub fn settling_stop(
    execution_started: bool,
    recorded_cancelled: bool,
    result: &Result<ExecutionOutcome, AgentError>,
    owner_stop: Option<InvocationCancellationEvent>,
) -> (r: Option<InvocationCancellationEvent>)
    ensures
        r == if !execution_started || recorded_cancelled || *result == Err::<ExecutionOutcome, AgentError>(
            AgentError::Closed,
        ) {
            owner_stop
        } else {
            None
        },
{
    let closed = match result {
        Err(AgentError::Closed) => true,
        _ => false,
    };
    if !execution_started || recorded_cancelled || closed {
        owner_stop
    } else {
        None
    }
}

/// Stage, cause and caller the settlement evidence of a run records: a stop
/// cancels it with the stop's cause and caller; a failed dispatch settles it as
/// such; otherwise history decides the cause, and its failure is returned.
pub open spec fn run_settlement(
    stop: Option<InvocationCancellationEvent>,
    dispatch_failed: bool,
    history: Result<SchedulingCause, StorageError>,
) -> Result<(InvocationStage, SchedulingCause, Option<ActionContext>), StorageError> {
    match stop {
        Some(e) => Ok((InvocationStage::Cancelled, e.cause, e.actor)),
        None => if dispatch_failed {
            Ok((InvocationStage::Settled, SchedulingCause::DispatchFailed, None))
        } else {
            match history {
                Ok(c) => Ok((InvocationStage::Settled, c, None)),
                Err(e) => Err(e),
            }
        },
    }
}

/// Decides the settlement evidence of a run; see [`run_settlement`].
pub fn settle_run(
    stop: &Option<InvocationCancellationEvent>,
    dispatch_failed: bool,
    history: Result<SchedulingCause, StorageError>,
) -> (r: Result<(InvocationStage, SchedulingCause, Option<ActionContext>), StorageError>)
    ensures
        r == run_settlement(*stop, dispatch_failed, history),
{
    match stop {
        Some(e) => Ok((InvocationStage::Cancelled, e.cause, copy_actor(&e.actor))),
        None => if dispatch_failed {
            Ok((InvocationStage::Settled, SchedulingCause::DispatchFailed, None))
        } else {
            match history {
                Ok(c) => Ok((InvocationStage::Settled, c, None)),
                Err(e) => Err(e),
            }
        },
    }
}

fn copy_actor(a: &Option<ActionContext>) -> (r: Option<ActionContext>)
    ensures
        r == *a,
{
    match a {
        Some(x) => Some(x.clone()),
        None => None,
    }
}

/// Cause and caller with which the remaining queue is cancelled after a failed
/// run: the run's stop, else an automatic runner stop.
pub fn queue_stop(stop: &Option<InvocationCancellationEvent>) -> (r: (SchedulingCause, Option<ActionContext>))
    ensures
        r == match *stop {
            Some(e) => (e.cause, e.actor),
            None => (SchedulingCause::RunnerStopped, None::<ActionContext>),
        },
{
    match stop {
        Some(e) => (e.cause, copy_actor(&e.actor)),
        None => (SchedulingCause::RunnerStopped, None),
    }
}

/// Cause of a stop seen through the close notice: an explicit close's caller
/// closed the session; without one the runner stopped.
pub fn close_cause(actor: &Option<ActionContext>) -> (r: SchedulingCause)
    ensures
        r == if actor is Some {
            SchedulingCause::SessionClosed
        } else {
            SchedulingCause::RunnerStopped
        },
{
    if actor.is_some() {
        SchedulingCause::SessionClosed
    } else {
        SchedulingCause::RunnerStopped
    }
}

/// Cause and caller recorded for a drained input: its own first stop wins over
/// the drain's.
pub fn drained_stop(
    first: &Option<InvocationCancellationEvent>,
    cause: SchedulingCause,
    actor: &Option<ActionContext>,
) -> (r: (SchedulingCause, Option<ActionContext>))
    ensures
        r == match *first {
            Some(e) => (e.cause, e.actor),
            None => (cause, *actor),
        },
{
    match first {
        Some(e) => (e.cause, copy_actor(&e.actor)),
        None => (cause, copy_actor(actor)),
    }
}

/// Receipt of a drained input: Closed once its cancellation was saved; the
/// storage failure otherwise. An input whose cancellation history already holds
/// (an interrupted earlier drain) is not saved again and fails as interrupted.
pub fn drained_receipt(recovering: bool, saved: Result<(), StorageError>) -> (r: Result<ExecutionOutcome, AgentError>)
    ensures
        match saved {
            Err(e) => r == Err::<ExecutionOutcome, AgentError>(AgentError::Storage(e)),
            Ok(()) => if recovering {
                r matches Err(AgentError::Storage(StorageError::Io(t))) && t@
                    == "pending cancellation persistence was interrupted"@
            } else {
                r == Err::<ExecutionOutcome, AgentError>(AgentError::Closed)
            },
        },
{
    match saved {
        Err(e) => Err(AgentError::Storage(e)),
        Ok(()) => {
            if recovering {
                let t = "pending cancellation persistence was interrupted";
                proof {
                    reveal_strlit("pending cancellation persistence was interrupted");
                }
                Err(AgentError::Storage(StorageError::Io(t.to_string())))
            } else {
                Err(AgentError::Closed)
            }
        },
    }
}

/// The first storage failure of a drain: the earlier one, else the failure a
/// receipt retains.
pub fn retained_failure(
    failure: Option<StorageError>,
    receipt: &Result<ExecutionOutcome, AgentError>,
) -> (r: Option<StorageError>)
    ensures
        r == match failure {
            Some(f) => Some(f),
            None => match *receipt {
                Err(AgentError::StorageAfterExecution { error, .. }) => Some(error),
                Err(AgentError::Storage(error)) => Some(error),
                _ => None,
            },
        },
{
    match failure {
        Some(f) => Some(f),
        None => match receipt {
            Err(AgentError::StorageAfterExecution { error, .. }) => Some(error.clone()),
            Err(AgentError::Storage(error)) => Some(error.clone()),
            _ => None,
        },
    }
}

/// The settlement a panic recovery records for an input last seen at `last`: a
/// queued input failed dispatch, a running one takes history's cause, and any
/// other stage records nothing.
pub open spec fn panic_settlement(
    last: InvocationStage,
    history: Result<SchedulingCause, StorageError>,
) -> Option<Result<SchedulingCause, StorageError>> {
    match last {
        InvocationStage::Queued => Some(Ok(SchedulingCause::DispatchFailed)),
        InvocationStage::Running => Some(history),
        _ => None,
    }
}

/// Decides a panic recovery's settlement; see [`panic_settlement`].
pub fn settle_after_panic(
    last: InvocationStage,
    history: Result<SchedulingCause, StorageError>,
) -> (r: Option<Result<SchedulingCause, StorageError>>)
    ensures
        r == panic_settlement(last, history),
{
    match last {
        InvocationStage::Queued => Some(Ok(SchedulingCause::DispatchFailed)),
        InvocationStage::Running => Some(history),
        _ => None,
    }
}

/// The failure a panicked task reports, `what` panicked, paired with its
/// cleanup's failure and bounded.
pub fn panic_failure(what: &str, cleanup: Result<CloseOutcome, AgentError>) -> (r: AgentError)
    ensures
        cleanup is Ok ==> (r matches AgentError::Protocol(t) && t@ == what@),
        cleanup matches Err(c) ==> (exists|t: String| t@ == what@ && bounded_as(
            after_cleanup(AgentError::Protocol(t), cleanup),
            r,
        )),
{
    let operation = AgentError::Protocol(what.to_string());
    match cleanup {
        Ok(_) => operation,
        Err(c) => with_cleanup_failure(operation, Err(c)).bounded(),
    }
}

/// How accepted steering is delivered.
#[derive(Debug, PartialEq, Eq)]
pub enum SteeringRoute {
    /// Admission closed while the input was saved.
    Refused,
    /// No turn can take it; it waits for the next invocation boundary.
    Queue,
    /// The provider is asked to inject it into this running target.
    Native(ExecutionId),
}

/// Whether two optional identities agree by value.
pub open spec fn same_target(a: Option<ExecutionId>, b: Option<ExecutionId>) -> bool {
    match (a, b) {
        (None, None) => true,
        (Some(x), Some(y)) => x@ == y@,
        _ => false,
    }
}

/// Routes steering after its input was saved: refused when admission closed or a
/// close was requested meanwhile; queued when the captured target settled or no
/// target was running; else native delivery to the target.
pub fn steering_route(
    accepts_queued: bool,
    close_requested: bool,
    active: &Option<ExecutionId>,
    target: &Option<ExecutionId>,
) -> (r: SteeringRoute)
    ensures
        r == if !accepts_queued || close_requested {
            SteeringRoute::Refused
        } else if !same_target(*active, *target) {
            SteeringRoute::Queue
        } else {
            match *target {
                Some(t) => SteeringRoute::Native(t),
                None => SteeringRoute::Queue,
            }
        },
{
    if !accepts_queued || close_requested {
        return SteeringRoute::Refused;
    }
    let same = match (active, target) {
        (None, None) => true,
        (Some(x), Some(y)) => x.same(y),
        _ => false,
    };
    if !same {
        return SteeringRoute::Queue;
    }
    match target {
        Some(t) => SteeringRoute::Native(t.clone()),
        None => SteeringRoute::Queue,
    }
}

/// Stage, cause and caller a failed steering delivery records: its owner's stop
/// cancels it; without one its dispatch failed.
pub fn steering_settlement(stop: &Option<InvocationCancellationEvent>) -> (r: (
    InvocationStage,
    SchedulingCause,
    Option<ActionContext>,
))
    ensures
        r == match *stop {
            Some(e) => (InvocationStage::Cancelled, e.cause, e.actor),
            None => (InvocationStage::Settled, SchedulingCause::DispatchFailed, None::<ActionContext>),
        },
{
    match stop {
        Some(e) => (InvocationStage::Cancelled, e.cause, copy_actor(&e.actor)),
        None => (InvocationStage::Settled, SchedulingCause::DispatchFailed, None),
    }
}

/// Result of an explicit close: the cleanup result, with a failure to save queue
/// cancellation evidence kept beside it.
pub fn close_result(
    saved: Result<(), AgentError>,
    cleanup: Result<CloseOutcome, AgentError>,
) -> (r: Result<CloseOutcome, AgentError>)
    ensures
        r == match saved {
            Ok(()) => cleanup,
            Err(AgentError::Storage(error)) => Err(
                AgentError::StorageDuringClose { error, cleanup_result: Box::new(cleanup) },
            ),
            Err(e) => Err(e),
        },
{
    match saved {
        Ok(()) => cleanup,
        Err(AgentError::Storage(error)) => Err(AgentError::StorageDuringClose { error, cleanup_result: Box::new(cleanup) }),
        Err(e) => Err(e),
    }
}

/// Why an observation of the invocation's own execution is invalid after its
/// terminal observation: only permission-cancellation evidence may follow it.
pub open spec fn terminal_violation_spec(terminal: Option<ExecutionOutcome>, update: ExecutionUpdate) -> Option<Seq<char>> {
    match terminal {
        None => None,
        Some(_) => match update {
            ExecutionUpdate::Finished(_) => Some("duplicate terminal observation"@),
            ExecutionUpdate::PermissionCancelled(_) => None,
            _ => Some("provider output follows terminal observation"@),
        },
    }
}

/// Checks an observation of the invocation's own execution against its earlier
/// terminal observation; see [`terminal_violation_spec`].
pub fn terminal_violation(terminal: Option<ExecutionOutcome>, update: &ExecutionUpdate) -> (r: Option<&'static str>)
    ensures
        match terminal_violation_spec(terminal, *update) {
            None => r is None,
            Some(m) => r matches Some(s) && s@ == m,
        },
{
    proof {
        reveal_strlit("duplicate terminal observation");
        reveal_strlit("provider output follows terminal observation");
    }
    match terminal {
        None => None,
        Some(_) => match update {
            ExecutionUpdate::Finished(_) => Some("duplicate terminal observation"),
            ExecutionUpdate::PermissionCancelled(_) => None,
            _ => Some("provider output follows terminal observation"),
        },
    }
}

/// Whether a terminal observation contradicts the execution's settlement.
pub fn contradicts(terminal: Option<ExecutionOutcome>, settled: Option<&Result<ExecutionOutcome, AgentError>>) -> (r: bool)
    ensures
        r == match (terminal, settled) {
            (Some(t), Some(s)) => *s != Ok::<ExecutionOutcome, AgentError>(t),
            _ => false,
        },
{
    match (terminal, settled) {
        (Some(t), Some(s)) => match s {
            Ok(o) => *o != t,
            Err(_) => true,
        },
        _ => false,
    }
}

/// The invocation's result, bounded: an observation failure wraps whatever
/// settlement was known; otherwise the settlement.
pub fn observed_result(
    observation_failure: Option<AgentError>,
    result: Option<Result<ExecutionOutcome, AgentError>>,
) -> (r: Result<ExecutionOutcome, AgentError>)
    requires
        observation_failure is Some || result is Some,
    ensures
        match observation_failure {
            Some(e) => r matches Err(b) && bounded_as(
                AgentError::ExecutionObservation {
                    error: Box::new(e),
                    execution_result: match result {
                        Some(x) => Some(Box::new(x)),
                        None => None,
                    },
                },
                b,
            ),
            None => match result->0 {
                Ok(o) => r == Ok::<ExecutionOutcome, AgentError>(o),
                Err(e) => r matches Err(b) && bounded_as(e, b),
            },
        },
{
    let unbounded = match observation_failure {
        Some(e) => Err(
            AgentError::ExecutionObservation {
                error: Box::new(e),
                execution_result: match result {
                    Some(x) => Some(Box::new(x)),
                    None => None,
                },
            },
        ),
        None => match result {
            Some(x) => x,
            None => Err(AgentError::Closed),
        },
    };
    match unbounded {
        Ok(o) => Ok(o),
        Err(e) => Err(e.bounded()),
    }
}


/// A queued input a stop reached, as the queue orders it.
#[derive(Debug)]
pub struct StoppedInput {
    /// Input identity.
    pub id: ExecutionId,
    /// Steering or ordinary input.
    pub kind: InvocationKind,
    /// Admission index in the session history.
    pub index: usize,
}

/// Whether `a` is dispatched no later than `b`: steering first, then by admission.
pub open spec fn dispatched_before(a: StoppedInput, b: StoppedInput) -> bool {
    let sa = a.kind == InvocationKind::Steering;
    let sb = b.kind == InvocationKind::Steering;
    (sa && !sb) || (sa == sb && a.index <= b.index)
}

/// Whether `p` lists every index below `n` exactly once.
pub open spec fn is_permutation(p: Seq<int>, n: int) -> bool {
    &&& p.len() == n
    &&& forall|k: int| 0 <= k < n ==> 0 <= #[trigger] p[k] < n
    &&& forall|a: int, b: int| 0 <= a < b < n ==> p[a] != p[b]
}

/// Whether `out` lists `items` in dispatch order, `p` saying where each came
/// from: sorted, and stable among inputs of equal order.
pub open spec fn dispatch_ordered(items: Seq<StoppedInput>, out: Seq<StoppedInput>, p: Seq<int>) -> bool {
    &&& is_permutation(p, items.len() as int)
    &&& out.len() == items.len()
    &&& forall|k: int| 0 <= k < out.len() ==> #[trigger] out[k] == items[p[k]]
    &&& forall|a: int, b: int| 0 <= a < b < out.len() ==> dispatched_before(#[trigger] out[a], #[trigger] out[b])
    &&& forall|a: int, b: int| 0 <= a < b < out.len() && dispatched_before(out[b], out[a]) ==> #[trigger] p[a]
        < #[trigger] p[b]
}

fn strictly_before(a: &StoppedInput, b: &StoppedInput) -> (r: bool)
    ensures
        r == !dispatched_before(*b, *a),
{
    let sa = matches!(a.kind, InvocationKind::Steering);
    let sb = matches!(b.kind, InvocationKind::Steering);
    (sa && !sb) || (sa == sb && a.index < b.index)
}

fn copy_stopped(x: &StoppedInput) -> (r: StoppedInput)
    ensures
        r == *x,
{
    StoppedInput { id: x.id.clone(), kind: x.kind, index: x.index }
}

/// Orders stopped inputs as the queue would dispatch them, steering first and
/// then by admission, keeping the given order among equals, and returns their
/// identities in that order.
pub fn dispatch_order(items: &Vec<StoppedInput>) -> (r: Vec<ExecutionId>)
    ensures
        exists|out: Seq<StoppedInput>, p: Seq<int>| dispatch_ordered(items@, out, p) && r@ == out.map_values(
            |x: StoppedInput| x.id,
        ),
{
    let mut out: Vec<StoppedInput> = Vec::new();
    let ghost mut p: Seq<int> = Seq::empty();
    let mut i: usize = 0;
    while i < items.len()
        invariant
            i <= items@.len(),
            dispatch_ordered(items@.take(i as int), out@, p),
        decreases items.len() - i,
    {
        let x = copy_stopped(&items[i]);
        let mut pos: usize = 0;
        while pos < out.len() && !strictly_before(&x, &out[pos])
            invariant
                i < items@.len(),
                pos <= out@.len(),
                dispatch_ordered(items@.take(i as int), out@, p),
                x == items@[i as int],
                forall|k: int| 0 <= k < pos ==> dispatched_before(#[trigger] out@[k], x),
            decreases out.len() - pos,
        {
            pos = pos + 1;
        }
        proof {
            if pos < out.len() {
                assert(!dispatched_before(out@[pos as int], x));
                assert forall|k: int| pos <= k < out@.len() implies !dispatched_before(#[trigger] out@[k], x) by {
                    if k > pos {
                        assert(dispatched_before(out@[pos as int], out@[k]));
                    }
                }
            }
        }
        let ghost before = out@;
        let ghost pb = p;
        out.insert(pos, x);
        proof {
            p = pb.insert(pos as int, i as int);
            let t = items@.take(i + 1);
            assert(t.len() == i + 1);
            assert forall|k: int| 0 <= k < out@.len() implies #[trigger] out@[k] == t[p[k]] by {
                if k < pos {
                    assert(out@[k] == before[k]);
                    assert(p[k] == pb[k]);
                } else if k > pos {
                    assert(out@[k] == before[k - 1]);
                    assert(p[k] == pb[k - 1]);
                }
            }
            assert forall|k: int| 0 <= k < i + 1 implies 0 <= #[trigger] p[k] < i + 1 by {
                if k < pos {
                    assert(p[k] == pb[k]);
                } else if k > pos {
                    assert(p[k] == pb[k - 1]);
                }
            }
            assert forall|a: int, b: int| 0 <= a < b < i + 1 implies p[a] != p[b] by {
                if a < pos && b < pos {
                } else if a < pos && b == pos {
                    assert(pb[a] < i);
                } else if a < pos && b > pos {
                    assert(p[b] == pb[b - 1]);
                } else if a == pos {
                    assert(pb[b - 1] < i);
                } else {
                    assert(p[a] == pb[a - 1] && p[b] == pb[b - 1]);
                }
            }
            assert forall|a: int, b: int| 0 <= a < b < out@.len() implies dispatched_before(
                #[trigger] out@[a],
                #[trigger] out@[b],
            ) by {
                if b < pos {
                } else if b == pos {
                } else if a < pos {
                    assert(out@[b] == before[b - 1]);
                    assert(dispatched_before(before[a], before[b - 1]));
                } else if a == pos {
                    assert(out@[b] == before[b - 1]);
                    assert(!dispatched_before(before[b - 1], x));
                } else {
                    assert(out@[a] == before[a - 1] && out@[b] == before[b - 1]);
                }
            }
            assert forall|a: int, b: int| 0 <= a < b < out@.len() && dispatched_before(out@[b], out@[a]) implies #[trigger] p[a]
                < #[trigger] p[b] by {
                if b < pos {
                } else if b == pos {
                    assert(pb[a] < i);
                } else if a < pos {
                    assert(out@[b] == before[b - 1]);
                    assert(p[b] == pb[b - 1]);
                } else if a == pos {
                    assert(out@[b] == before[b - 1]);
                    assert(!dispatched_before(before[b - 1], x));
                } else {
                    assert(out@[a] == before[a - 1] && out@[b] == before[b - 1]);
                    assert(p[a] == pb[a - 1] && p[b] == pb[b - 1]);
                }
            }
        }
        i = i + 1;
    }
    proof {
        assert(items@.take(items@.len() as int) == items@);
    }
    let mut ids: Vec<ExecutionId> = Vec::new();
    let mut k: usize = 0;
    while k < out.len()
        invariant
            k <= out@.len(),
            ids@ == out@.take(k as int).map_values(|x: StoppedInput| x.id),
        decreases out.len() - k,
    {
        ids.push(out[k].id.clone());
        proof {
            assert(out@.take(k + 1) == out@.take(k as int).push(out@[k as int]));
            assert(out@.take(k + 1).map_values(|x: StoppedInput| x.id) == out@.take(k as int).map_values(
                |x: StoppedInput| x.id,
            ).push(out@[k as int].id));
        }
        k = k + 1;
    }
    proof {
        assert(out@.take(out@.len() as int) == out@);
    }
    ids
}


/// What a retried submission recovers from its saved record, never replaying
/// provider work.
#[derive(Debug, PartialEq, Eq)]
pub enum RestoredReceipt {
    /// The provider accepted the steering into this target.
    Injected(ExecutionId),
    /// The receipt settled with this result.
    Settled(Result<ExecutionOutcome, AgentError>),
}

/// The receipt a saved submission restores. Accepted injection stays accepted;
/// a cancelled input settles with its saved result or Closed; a settled one, or a
/// running one with a saved result, with that result; anything else is
/// unresolved. Native steering that never ran restores only its failure.
pub open spec fn restoration(
    last: Option<(InvocationStage, Option<ExecutionId>)>,
    result: Option<Result<ExecutionOutcome, AgentError>>,
    ran: bool,
    mode: SubmissionMode,
) -> Result<RestoredReceipt, AgentError> {
    let settled = match last {
        Some((InvocationStage::Cancelled, _)) => Some(
            match result {
                Some(r) => r,
                None => Err(AgentError::Closed),
            },
        ),
        Some((InvocationStage::Settled, _)) => Some(
            match result {
                Some(r) => r,
                None => Err(AgentError::SubmissionUnresolved),
            },
        ),
        Some((InvocationStage::Running, _)) => result,
        _ => None,
    };
    match last {
        Some((InvocationStage::Injected, target)) => match target {
            Some(t) => Ok(RestoredReceipt::Injected(t)),
            None => Err(AgentError::SubmissionUnresolved),
        },
        _ => match settled {
            None => Err(AgentError::SubmissionUnresolved),
            Some(r) => if mode == SubmissionMode::NativeSteering && result is Some && !ran {
                Err(
                    match r {
                        Err(e) => e,
                        Ok(_) => AgentError::SubmissionUnresolved,
                    },
                )
            } else {
                Ok(RestoredReceipt::Settled(r))
            },
        },
    }
}

/// Queued work is never replayed after a restart: a saved submission whose last
/// stage is still Queued, or that has no stage at all, restores as unresolved
/// rather than as work to run, whatever result and mode it was saved with.
pub proof fn law_restored_queue_is_not_replayed(
    target: Option<ExecutionId>,
    result: Option<Result<ExecutionOutcome, AgentError>>,
    ran: bool,
    mode: SubmissionMode,
)
    ensures
        restoration(Some((InvocationStage::Queued, target)), result, ran, mode) == Err::<
            RestoredReceipt,
            AgentError,
        >(AgentError::SubmissionUnresolved),
        restoration(None, result, ran, mode) == Err::<RestoredReceipt, AgentError>(
            AgentError::SubmissionUnresolved,
        ),
{
}

/// Restores the receipt of a saved submission from its last scheduling stage and
/// target, its saved result, and whether it ever ran; see [`restoration`].
pub fn restore_receipt(
    last: Option<(InvocationStage, Option<ExecutionId>)>,
    result: Option<Result<ExecutionOutcome, AgentError>>,
    ran: bool,
    mode: SubmissionMode,
) -> (r: Result<RestoredReceipt, AgentError>)
    ensures
        r == restoration(last, result, ran, mode),
{
    let has_result = result.is_some();
    let settled = match &last {
        Some((InvocationStage::Injected, target)) => {
            return match target {
                Some(t) => Ok(RestoredReceipt::Injected(t.clone())),
                None => Err(AgentError::SubmissionUnresolved),
            };
        },
        Some((InvocationStage::Cancelled, _)) => match result {
            Some(r) => r,
            None => Err(AgentError::Closed),
        },
        Some((InvocationStage::Settled, _)) => match result {
            Some(r) => r,
            None => Err(AgentError::SubmissionUnresolved),
        },
        Some((InvocationStage::Running, _)) => match result {
            Some(r) => r,
            None => return Err(AgentError::SubmissionUnresolved),
        },
        _ => return Err(AgentError::SubmissionUnresolved),
    };
    if matches!(mode, SubmissionMode::NativeSteering) && has_result && !ran {
        return Err(
            match settled {
                Err(e) => e,
                Ok(_) => AgentError::SubmissionUnresolved,
            },
        );
    }
    Ok(RestoredReceipt::Settled(settled))
}


/// A panicked invocation task's failure `panic` beside the failure to drain the
/// observations it still owned, and then beside its cleanup failure.
pub open spec fn after_panic(
    panic: AgentError,
    drain_error: Option<AgentError>,
    cleanup: Result<CloseOutcome, AgentError>,
) -> AgentError {
    let drained = match drain_error {
        Some(d) => AgentError::OperationAndCleanupFailure { operation_error: Box::new(panic), cleanup_error: Box::new(d) },
        None => panic,
    };
    after_cleanup(drained, cleanup)
}

/// Whether a panicked invocation drains its ready observations: only when the
/// session cleanup was confirmed and the observation owner is still at hand.
pub fn drains_after_panic(cleanup_confirmed: bool, events_available: bool) -> (r: bool)
    ensures
        r == (cleanup_confirmed && events_available),
{
    cleanup_confirmed && events_available
}

/// The failure a panicked invocation task retains; see [`after_panic`].
pub fn invocation_panic_failure(
    drain_error: Option<AgentError>,
    cleanup: Result<CloseOutcome, AgentError>,
) -> (r: AgentError)
    ensures
        exists|t: String| t@ == "invocation task panicked"@ && r == after_panic(AgentError::Protocol(t), drain_error, cleanup),
{
    let text = "invocation task panicked".to_string();
    let ghost t = text;
    let panic = AgentError::Protocol(text);
    let drained = match drain_error {
        Some(d) => AgentError::OperationAndCleanupFailure { operation_error: Box::new(panic), cleanup_error: Box::new(d) },
        None => panic,
    };
    let r = with_cleanup_failure(drained, cleanup);
    assert(r == after_panic(AgentError::Protocol(t), drain_error, cleanup));
    r
}

/// What a submission asked for, as a retry under its execution identity is held
/// to: the message text and its images by digest, the caller's token estimate and
/// output reservation, the verified caller and the delivery mode.
#[derive(Debug)]
pub struct SubmissionIntent {
    /// The message text.
    pub text: String,
    /// The message's images, by content digest, in order.
    pub image_digests: Vec<String>,
    /// Caller estimate of input context tokens.
    pub estimated_input_tokens: u64,
    /// Output tokens reserved.
    pub reserved_output_tokens: u32,
    /// The verified caller.
    pub actor: ActionContext,
    /// How the input is delivered.
    pub mode: SubmissionMode,
}

/// The digests of `images`, as text.
pub open spec fn digest_texts(images: Seq<String>) -> Seq<Seq<char>> {
    images.map_values(|d: String| d@)
}

fn same_digests(a: &Vec<String>, b: &Vec<String>) -> (r: bool)
    ensures
        r == (digest_texts(a@) == digest_texts(b@)),
{
    if a.len() != b.len() {
        proof {
            assert(digest_texts(a@).len() != digest_texts(b@).len());
        }
        return false;
    }
    let mut i: usize = 0;
    while i < a.len()
        invariant
            a.len() == b.len(),
            i <= a.len(),
            forall|j: int| 0 <= j < i ==> a@[j]@ == b@[j]@,
        decreases a.len() - i,
    {
        if !a[i].eq(&b[i]) {
            proof {
                assert(digest_texts(a@)[i as int] != digest_texts(b@)[i as int]);
            }
            return false;
        }
        i += 1;
    }
    proof {
        assert(digest_texts(a@) =~= digest_texts(b@));
    }
    true
}

/// Whether a retried submission carries the saved intent: the same text and
/// images, the same token estimate and reservation, the same principal, surface
/// and request, and the same delivery mode.
pub open spec fn same_intent(saved: SubmissionIntent, retry: SubmissionIntent) -> bool {
    &&& saved.text@ == retry.text@
    &&& digest_texts(saved.image_digests@) == digest_texts(retry.image_digests@)
    &&& saved.estimated_input_tokens == retry.estimated_input_tokens
    &&& saved.reserved_output_tokens == retry.reserved_output_tokens
    &&& same_context(saved.actor, retry.actor)
    &&& saved.mode == retry.mode
}

/// Answers a retried submission under a saved execution identity: what was
/// `restored` for it when the intent is unchanged, SubmissionConflict otherwise.
pub fn retry_decision<T>(saved: &SubmissionIntent, retry: &SubmissionIntent, restored: Result<T, AgentError>) -> (r:
    Result<T, AgentError>)
    ensures
        same_intent(*saved, *retry) ==> r == restored,
        !same_intent(*saved, *retry) ==> r == Err::<T, AgentError>(AgentError::SubmissionConflict),
{
    if saved.text.eq(&retry.text) && same_digests(&saved.image_digests, &retry.image_digests)
        && saved.estimated_input_tokens == retry.estimated_input_tokens
        && saved.reserved_output_tokens == retry.reserved_output_tokens && saved.actor.same(&retry.actor)
        && saved.mode == retry.mode {
        restored
    } else {
        Err(AgentError::SubmissionConflict)
    }
}

/// What a retried enqueue recovers: a receipt settled with its result; an input
/// that was injected as native steering is another intent and conflicts.
pub fn enqueue_recovery(restored: Result<RestoredReceipt, AgentError>) -> (r: Result<
    Result<ExecutionOutcome, AgentError>,
    AgentError,
>)
    ensures
        r == match restored {
            Ok(RestoredReceipt::Settled(x)) => Ok(x),
            Ok(RestoredReceipt::Injected(_)) => Err(AgentError::SubmissionConflict),
            Err(e) => Err::<Result<ExecutionOutcome, AgentError>, AgentError>(e),
        },
{
    match restored {
        Ok(RestoredReceipt::Settled(x)) => Ok(x),
        Ok(RestoredReceipt::Injected(_)) => Err(AgentError::SubmissionConflict),
        Err(e) => Err(e),
    }
}

/// A supervisor failure of an admitted invocation, retained without replacing an
/// already-known result: bounded, and wrapped as an observation failure beside
/// the prior result when there is one.
pub fn supervisor_failure(
    error: AgentError,
    prior: Option<Result<ExecutionOutcome, AgentError>>,
) -> (r: Result<ExecutionOutcome, AgentError>)
    ensures
        r matches Err(x) && match prior {
            None => bounded_as(error, x),
            Some(p) => exists|b: AgentError| bounded_as(error, b) && bounded_as(
                AgentError::ExecutionObservation { error: Box::new(b), execution_result: Some(Box::new(p)) },
                x,
            ),
        },
{
    let error = error.bounded();
    match prior {
        None => Err(error),
        Some(p) => Err(
            AgentError::ExecutionObservation { error: Box::new(error), execution_result: Some(Box::new(p)) }.bounded(),
        ),
    }
}

} // verus!
