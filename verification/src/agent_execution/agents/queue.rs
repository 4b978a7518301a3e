//! The bounded FIFO of inputs that wait for an invocation boundary.
use super::scheduling::QueueRemoval;
use super::AgentError;
use crate::domain::executions::ExecutionOutcome;
use crate::domain::ids::ExecutionId;
use crate::domain::scheduling::SchedulingError;
use super::comparison::err_eq;
use vstd::prelude::*;

verus! {

/// Most inputs that may wait at once.
pub const MAX_QUEUED: usize = 64;

/// Whether an input with identity `id` waits in `queue`.
pub open spec fn is_queued(queue: Seq<ExecutionId>, id: Seq<char>) -> bool {
    exists|k: int| 0 <= k < queue.len() && #[trigger] queue[k]@ == id
}

fn queued(queue: &Vec<ExecutionId>, id: &ExecutionId) -> (r: bool)
    ensures
        r == is_queued(queue@, id@),
{
    let mut k: usize = 0;
    while k < queue.len()
        invariant
            0 <= k <= queue.len(),
            forall|j: int| 0 <= j < k ==> #[trigger] queue@[j]@ != id@,
        decreases queue.len() - k,
    {
        if queue[k].same(id) {
            assert(queue@[k as int]@ == id@);
            return true;
        }
        k += 1;
    }
    false
}

/// Admits `id` behind every waiting input. Returns QueueFull when 64 inputs wait
/// already and Duplicate when `id` itself waits; a refusal leaves the queue as it was.
pub fn admit_queued(queue: &mut Vec<ExecutionId>, id: ExecutionId) -> (r: Result<(), SchedulingError>)
    ensures
        r is Ok <==> old(queue)@.len() < MAX_QUEUED && !is_queued(old(queue)@, id@),
        r is Ok ==> final(queue)@ == old(queue)@.push(id),
        r matches Err(e) ==> final(queue)@ == old(queue)@ && if old(queue)@.len() >= MAX_QUEUED {
            e == SchedulingError::QueueFull
        } else {
            e == SchedulingError::Duplicate
        },
{
    if queue.len() >= MAX_QUEUED {
        return Err(SchedulingError::QueueFull);
    }
    if queued(queue, &id) {
        return Err(SchedulingError::Duplicate);
    }
    queue.push(id);
    Ok(())
}

/// Admits a submitted input as [`admit_queued`] does, answering a refusal as the
/// agent's Scheduling error: a full queue of 64 refuses with QueueFull.
pub fn admit_submission(queue: &mut Vec<ExecutionId>, id: ExecutionId) -> (r: Result<(), AgentError>)
    ensures
        r is Ok <==> old(queue)@.len() < MAX_QUEUED && !is_queued(old(queue)@, id@),
        r is Ok ==> final(queue)@ == old(queue)@.push(id),
        r matches Err(e) ==> final(queue)@ == old(queue)@ && e == AgentError::Scheduling(
            if old(queue)@.len() >= MAX_QUEUED {
                SchedulingError::QueueFull
            } else {
                SchedulingError::Duplicate
            },
        ),
{
    match admit_queued(queue, id) {
        Ok(()) => Ok(()),
        Err(e) => Err(AgentError::Scheduling(e)),
    }
}

/// Takes the input that has waited longest, if any.
pub fn take_next(queue: &mut Vec<ExecutionId>) -> (r: Option<ExecutionId>)
    ensures
        old(queue)@.len() == 0 ==> r is None && final(queue)@ == old(queue)@,
        old(queue)@.len() > 0 ==> r == Some(old(queue)@[0]) && final(queue)@ == old(queue)@.drop_first(),
{
    if queue.len() == 0 {
        None
    } else {
        let first = queue.remove(0);
        assert(old(queue)@.remove(0) =~= old(queue)@.drop_first());
        Some(first)
    }
}

/// Whether no identity waits twice in `queue`.
pub open spec fn distinct_ids(queue: Seq<ExecutionId>) -> bool {
    forall|i: int, j: int| 0 <= i < j < queue.len() ==> #[trigger] queue[i]@ != #[trigger] queue[j]@
}

/// Keeps every input but the one with identity `id`.
pub open spec fn other_than(id: Seq<char>) -> spec_fn(ExecutionId) -> bool {
    |q: ExecutionId| q@ != id
}

/// Withdraws the waiting input `id`: Removed, and the queue without it, when it
/// waits; NotPending, and the queue as it was, when it is unknown or was already
/// removed, dispatched or injected.
pub fn withdraw_queued(queue: &mut Vec<ExecutionId>, id: &ExecutionId) -> (r: QueueRemoval)
    ensures
        !is_queued(old(queue)@, id@) ==> r == QueueRemoval::NotPending && final(queue)@ == old(queue)@,
        is_queued(old(queue)@, id@) ==> r == QueueRemoval::Removed && final(queue)@ == old(queue)@.filter(
            other_than(id@),
        ),
{
    if !queued(queue, id) {
        return QueueRemoval::NotPending;
    }
    let ghost before = queue@;
    let mut kept: Vec<ExecutionId> = Vec::new();
    let mut i: usize = 0;
    while i < queue.len()
        invariant
            queue@ == before,
            i <= queue.len(),
            kept@ == before.take(i as int).filter(other_than(id@)),
        decreases queue.len() - i,
    {
        proof {
            reveal(Seq::filter);
            assert(before.take(i + 1).drop_last() == before.take(i as int));
            assert(before.take(i + 1).last() == before[i as int]);
        }
        if !queue[i].same(id) {
            kept.push(queue[i].clone());
        }
        i += 1;
    }
    proof {
        assert(before.take(before.len() as int) == before);
    }
    *queue = kept;
    QueueRemoval::Removed
}

/// What a withdrawal answers and what the withdrawn input's receipt resolves to:
/// when saving its Withdrawn evidence failed, both carry that failure; otherwise
/// the withdrawal answers Removed and the receipt resolves Closed.
pub fn withdrawal_receipt(failure: Option<AgentError>) -> (r: (
    Result<QueueRemoval, AgentError>,
    Result<ExecutionOutcome, AgentError>,
))
    ensures
        failure is None ==> r == (
            Ok::<QueueRemoval, AgentError>(QueueRemoval::Removed),
            Err::<ExecutionOutcome, AgentError>(AgentError::Closed),
        ),
        failure matches Some(f) ==> r.0 == Err::<QueueRemoval, AgentError>(f) && (r.1 matches Err(x) && err_eq(
            x,
            f,
        )),
{
    match failure {
        None => (Ok(QueueRemoval::Removed), Err(AgentError::Closed)),
        Some(f) => {
            let receipt = f.clone();
            (Err(f), Err(receipt))
        },
    }
}

/// Dispatch and withdrawal exclude each other on a queue where no identity waits
/// twice: once the first input is taken for dispatch it no longer waits, so a
/// withdrawal of it finds nothing; once an input is withdrawn it no longer
/// waits, so it is never taken. Admission keeps identities distinct.
pub proof fn law_dispatch_and_withdrawal_exclude(queue: Seq<ExecutionId>, id: ExecutionId)
    requires
        distinct_ids(queue),
    ensures
        queue.len() > 0 ==> !is_queued(queue.drop_first(), queue[0]@),
        !is_queued(queue.filter(other_than(id@)), id@),
        !is_queued(queue, id@) ==> distinct_ids(queue.push(id)),
{
    broadcast use vstd::seq_lib::group_filter_ensures;

    if queue.len() > 0 {
        if is_queued(queue.drop_first(), queue[0]@) {
            let k = choose|k: int| 0 <= k < queue.drop_first().len() && #[trigger] queue.drop_first()[k]@ == queue[0]@;
            assert(queue[k + 1]@ == queue[0]@);
        }
    }
    let kept = queue.filter(other_than(id@));
    if is_queued(kept, id@) {
        let k = choose|k: int| 0 <= k < kept.len() && #[trigger] kept[k]@ == id@;
        assert(other_than(id@)(kept[k]));
    }
    if !is_queued(queue, id@) {
        assert forall|i: int, j: int| 0 <= i < j < queue.push(id).len() implies #[trigger] queue.push(id)[i]@
            != #[trigger] queue.push(id)[j]@ by {
            if j == queue.len() {
                assert(queue.push(id)[i] == queue[i]);
                if queue[i]@ == id@ {
                    assert(is_queued(queue, id@));
                }
            } else {
                assert(queue.push(id)[i] == queue[i] && queue.push(id)[j] == queue[j]);
            }
        }
    }
}

/// Inputs run in admission order: admitting `id` to a queue that holds inputs
/// leaves the longest-waiting one first, and `id` comes out after all of them.
pub proof fn law_queue_is_fifo(queue: Seq<ExecutionId>, id: ExecutionId)
    requires
        queue.len() > 0,
    ensures
        queue.push(id)[0] == queue[0],
        queue.push(id).drop_first() == queue.drop_first().push(id),
{
    assert(queue.push(id).drop_first() =~= queue.drop_first().push(id));
}

} // verus!
