//! Properties of the execution controller that span its operations.
use super::controller::{
    after_tool, aligned, answerable, answered_review, can_begin, cancellation_values, closure_evidence, controller_wf,
    released, resolved_at, settled, slot_charge, slot_inputs, slot_open, withdrawn_all, ControllerView,
};
use super::audit::ExecutionAuditRecord;
use crate::agent_execution::permissions::{CancellationOrigin, PermissionCancellation};
use crate::domain::ids::ExecutionSessionId;
use crate::domain::permissions::{PermissionCancellationReason, PermissionRequestView};
use crate::domain::session::{
    cancelled_list, has_tool, observe, prior_observation, tool_pos, has_permission, is_pending, permission_pos, session_wf, was_admitted,
};
use crate::domain::tools::{merged, ObservationView, UpdateView};
use crate::sums::{lemma_sum_zero, seq_sum};
use vstd::prelude::*;

verus! {

/// An execution identity is never reusable: once its execution settles, the same
/// identity cannot begin again, although settlement released everything else.
pub proof fn law_settled_identity_is_not_reusable(v: ControllerView)
    requires
        controller_wf(v),
        v.session.active is Some,
    ensures
        !can_begin(settled(v), v.session.active->0@),
        settled(v).session.admitted == v.session.admitted,
{
}

/// Settlement leaves a valid idle controller with no tool, no review and no retained
/// byte, and keeps the closure state and every admitted identity.
pub proof fn law_settlement_releases_everything(v: ControllerView)
    requires
        controller_wf(v),
    ensures
        controller_wf(settled(v)),
        settled(v).session.active is None,
        settled(v).session.tools.len() == 0,
        settled(v).session.permissions.len() == 0,
        settled(v).pending == 0,
        settled(v).tool_bytes == 0,
        settled(v).review_bytes == 0,
        settled(v).session.closed == v.session.closed,
        settled(v).session.admitted == v.session.admitted,
{
    let w = settled(v);
    assert(w.session.tools =~= Seq::empty());
}

/// A review resolves once: after it is answered or cancelled, it is no longer
/// pending, so it can be neither answered nor cancelled again.
pub proof fn law_review_resolves_once(
    v: ControllerView,
    i: int,
    q: PermissionRequestView,
    execution: Seq<char>,
    option: Seq<char>,
)
    requires
        controller_wf(v),
        0 <= i < v.reviews.len(),
        v.session.permissions[i].state is Pending,
        !(q.state is Pending),
        q.id == v.session.permissions[i].id,
    ensures
        !is_pending(resolved_at(v, i, q).session.permissions, q.id@),
        !answerable(resolved_at(v, i, q).session, execution, q.id@, option),
{
    let ps = resolved_at(v, i, q).session.permissions;
    assert(ps[i].id@ == q.id@);
    assert(has_permission(ps, q.id@));
    let j = permission_pos(ps, q.id@);
    if j != i {
        assert(ps[j] == v.session.permissions[j]);
        assert(v.session.permissions[j].id@ != v.session.permissions[i].id@);
    }
}

/// Answering a review settles it for good: once `answer_permission` resolved the
/// review `id` with `option`, the review is no longer pending, and a further
/// answer of `id`, with any option and for any execution, is stale.
pub proof fn law_answered_review_is_stale(
    v: ControllerView,
    execution: Seq<char>,
    id: Seq<char>,
    option: Seq<char>,
    later_execution: Seq<char>,
    later_option: Seq<char>,
)
    requires
        controller_wf(v),
        answerable(v.session, execution, id, option),
    ensures
        ({
            let i = permission_pos(v.session.permissions, id);
            let w = resolved_at(v, i, answered_review(v.session, id, option));
            &&& !is_pending(w.session.permissions, id)
            &&& !answerable(w.session, later_execution, id, later_option)
            &&& w.pending == v.pending - 1
        }),
{
    let ps = v.session.permissions;
    let i = permission_pos(ps, id);
    assert(0 <= i < ps.len() && ps[i].id@ == id);
    let q = answered_review(v.session, id, option);
    assert(!(q.state is Pending));
    law_review_resolves_once(v, i, q, later_execution, later_option);
    law_resolution_releases_only_its_review(v, i, q);
}

/// Resolving one review releases exactly its own input and bytes: every other
/// review keeps its state and slot, the tool budget is untouched, and the review
/// budget falls by that review's charge alone.
pub proof fn law_resolution_releases_only_its_review(v: ControllerView, i: int, q: PermissionRequestView)
    requires
        controller_wf(v),
        0 <= i < v.reviews.len(),
        v.session.permissions[i].state is Pending,
    ensures
        forall|j: int|
            0 <= j < v.reviews.len() && j != i ==> #[trigger] resolved_at(v, i, q).reviews[j] == v.reviews[j]
                && resolved_at(v, i, q).session.permissions[j] == v.session.permissions[j],
        resolved_at(v, i, q).reviews[i] is None,
        resolved_at(v, i, q).review_bytes == v.review_bytes - slot_charge()(v.reviews[i]),
        resolved_at(v, i, q).pending == v.pending - 1,
        resolved_at(v, i, q).tool_bytes == v.tool_bytes,
{
    crate::sums::lemma_sum_bounds(v.reviews, slot_charge());
    assert forall|j: int| 0 <= j < v.reviews.len() implies slot_open()(#[trigger] v.reviews[j]) >= 0 by {}
    crate::sums::lemma_sum_bounds(v.reviews, slot_open());
    assert(slot_open()(v.reviews[i]) == 1);
}

/// Closure is once-only: after any accepted close, a further close changes nothing
/// and reports nothing.
pub proof fn law_close_is_once_only(
    before: ControllerView,
    after: ControllerView,
    records: Seq<super::audit::ExecutionAuditRecord>,
    reason: PermissionCancellationReason,
    origin: CancellationOrigin,
    again: ControllerView,
    more: Seq<super::audit::ExecutionAuditRecord>,
    reason2: PermissionCancellationReason,
    origin2: CancellationOrigin,
)
    requires
        closure_evidence(before, after, records, reason, origin),
        closure_evidence(after, again, more, reason2, origin2),
    ensures
        after.session.closed,
        again == after,
        more.len() == 0,
{
}

/// A closed session holds no pending review: no input is retained and the review
/// budget is empty.
pub proof fn law_closed_session_holds_no_review(v: ControllerView)
    requires
        controller_wf(v),
        v.session.closed,
    ensures
        forall|i: int| 0 <= i < v.reviews.len() ==> #[trigger] v.reviews[i] is None,
        v.pending == 0,
        v.review_bytes == 0,
{
    assert forall|i: int| 0 <= i < v.reviews.len() implies #[trigger] v.reviews[i] is None by {
        assert(!(v.session.permissions[i].state is Pending));
    }
    lemma_sum_zero(v.reviews, slot_open());
    lemma_sum_zero(v.reviews, slot_charge());
}

proof fn lemma_counts(ps: Seq<PermissionRequestView>, rs: Seq<super::controller::ReviewSlot>, reason: PermissionCancellationReason)
    requires
        aligned(ps, rs),
    ensures
        cancelled_list(ps, reason).len() == seq_sum(rs, slot_open()),
        slot_inputs(rs).len() == seq_sum(rs, slot_open()),
    decreases ps.len(),
{
    if ps.len() > 0 {
        assert(aligned(ps.drop_last(), rs.drop_last())) by {
            assert forall|i: int| 0 <= i < rs.len() - 1 implies (#[trigger] rs.drop_last()[i] is Some
                <==> ps.drop_last()[i].state is Pending) by {
                assert(rs.drop_last()[i] == rs[i]);
            }
        }
        lemma_counts(ps.drop_last(), rs.drop_last(), reason);
        assert(rs.last() is Some <==> ps.last().state is Pending) by {
            assert(rs[rs.len() - 1] is Some <==> ps[ps.len() - 1].state is Pending);
        }
    }
}

/// Withdrawing every review, by closure, settlement or a lifecycle cause, reports
/// one cancellation for each pending review, no more and no fewer.
pub proof fn law_withdrawal_reports_every_pending_review(
    v: ControllerView,
    reason: PermissionCancellationReason,
    session: ExecutionSessionId,
    origin: CancellationOrigin,
)
    requires
        controller_wf(v),
    ensures
        released(v.session.permissions, v.reviews, reason, session, origin).len() == v.pending,
{
    lemma_counts(v.session.permissions, v.reviews, reason);
}

/// Withdrawal counts exactly the pending reviews: `cancel_permissions` returns one
/// cancellation per pending review and leaves no review byte retained, and a first
/// close reports its closure record and then one record per pending review.
pub proof fn law_withdrawal_counts_pending_reviews(
    v: ControllerView,
    after: ControllerView,
    cancellations: Seq<PermissionCancellation>,
    records: Seq<ExecutionAuditRecord>,
    reason: PermissionCancellationReason,
    origin: CancellationOrigin,
)
    requires
        controller_wf(v),
    ensures
        cancellation_values(
            cancellations,
            released(v.session.permissions, v.reviews, reason, v.session.id, origin),
        ) ==> cancellations.len() == v.pending && withdrawn_all(v, reason).review_bytes == 0,
        !v.session.closed && closure_evidence(v, after, records, reason, origin) ==> records.len() == v.pending + 1
            && after.review_bytes == 0,
{
    lemma_counts(v.session.permissions, v.reviews, reason);
}

/// Cancelling one pending review releases its bytes: when it was the only review
/// holding any, the controller retains no review byte afterwards.
pub proof fn law_cancelled_review_releases_its_bytes(v: ControllerView, i: int, q: PermissionRequestView)
    requires
        controller_wf(v),
        0 <= i < v.reviews.len(),
        v.session.permissions[i].state is Pending,
        !(q.state is Pending),
        q.id == v.session.permissions[i].id,
        v.review_bytes == slot_charge()(v.reviews[i]),
    ensures
        resolved_at(v, i, q).review_bytes == 0,
{
}

/// A sparse tool update replaces exactly the fields it reports: each reported field
/// takes the update's value, and each unreported field keeps the prior one.
pub proof fn law_update_replaces_reported_fields(o: ObservationView, u: ObservationView)
    ensures
        u.title is Some ==> merged(o, u).title == u.title,
        u.title is None ==> merged(o, u).title == o.title,
        u.kind is Some ==> merged(o, u).kind == u.kind,
        u.kind is None ==> merged(o, u).kind == o.kind,
        u.status is Some ==> merged(o, u).status == u.status,
        u.status is None ==> merged(o, u).status == o.status,
        u.locations is Some ==> merged(o, u).locations == u.locations,
        u.locations is None ==> merged(o, u).locations == o.locations,
        u.content is Some ==> merged(o, u).content == u.content,
        u.content is None ==> merged(o, u).content == o.content,
        merged(merged(o, u), u) == merged(o, u),
{
}

/// Observing a tool update of the active execution leaves that tool retained, and
/// its retained observation holds every field the update reports, with the
/// update's value, and the earlier value of every field it does not report; every
/// other tool is untouched.
pub proof fn law_observed_tool_holds_the_latest_report(v: ControllerView, execution: Seq<char>, u: UpdateView)
    requires
        session_wf(v.session),
    ensures
        ({
            let after = after_tool(v, execution, u).session.tools;
            let now = prior_observation(after, u.id@);
            let before = prior_observation(v.session.tools, u.id@);
            &&& has_tool(after, u.id@)
            &&& (u.fields.title is Some ==> now.title == u.fields.title)
            &&& (u.fields.title is None ==> now.title == before.title)
            &&& (u.fields.kind is Some ==> now.kind == u.fields.kind)
            &&& (u.fields.kind is None ==> now.kind == before.kind)
            &&& (u.fields.status is Some ==> now.status == u.fields.status)
            &&& (u.fields.status is None ==> now.status == before.status)
            &&& (u.fields.locations is Some ==> now.locations == u.fields.locations)
            &&& (u.fields.locations is None ==> now.locations == before.locations)
            &&& (u.fields.content is Some ==> now.content == u.fields.content)
            &&& (u.fields.content is None ==> now.content == before.content)
            &&& forall|k: Seq<char>| k != u.id@ ==> #[trigger] prior_observation(after, k) == prior_observation(
                v.session.tools,
                k,
            )
        }),
{
    let tools = v.session.tools;
    let after = after_tool(v, execution, u).session.tools;
    let id = u.id@;
    assert(after == observe(tools, u));
    let merged_now = merged(prior_observation(tools, id), u.fields);
    if has_tool(tools, id) {
        let i = tool_pos(tools, id);
        assert(after[i].id@ == id);
        assert(has_tool(after, id));
        let j = tool_pos(after, id);
        assert(after[j].id == tools[j].id);
        assert(j == i);
        assert(after[j].observation == merged_now);
    } else {
        let n = tools.len() as int;
        assert(after[n].id@ == id);
        assert(has_tool(after, id));
        let j = tool_pos(after, id);
        if j < n {
            assert(after[j] == tools[j]);
            assert(false);
        }
        assert(after[j].observation == merged_now);
    }
    assert forall|k: Seq<char>| k != id implies #[trigger] prior_observation(after, k) == prior_observation(tools, k) by {
        assert forall|m: int| 0 <= m < tools.len() implies #[trigger] after[m].id == tools[m].id by {
            if has_tool(tools, id) {
                let i = tool_pos(tools, id);
                if m == i {
                    assert(after[m].id == tools[i].id);
                }
            }
        }
        if has_tool(tools, k) {
            let p = tool_pos(tools, k);
            assert(after[p].id@ == k);
            assert(has_tool(after, k));
            let q = tool_pos(after, k);
            if q >= tools.len() {
                assert(after[q].id@ == id);
            }
            assert(after[q].id == tools[q].id);
            assert(q == p);
            if has_tool(tools, id) {
                assert(p != tool_pos(tools, id));
            }
            assert(after[p] == tools[p]);
        } else {
            if has_tool(after, k) {
                let q = tool_pos(after, k);
                if q < tools.len() {
                    assert(after[q].id == tools[q].id);
                    assert(tools[q].id@ == k);
                    assert(false);
                } else {
                    assert(after[q].id@ == id);
                }
            }
        }
    }
}

} // verus!
