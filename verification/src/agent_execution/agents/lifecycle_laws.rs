//! Properties of the session lifecycle that span its transitions.
use super::lifecycle::{
    accept_outcome, admission_lost, stop_event, accepts_waiting, existing_stop, final_report, finalize_current, finalized, grant_current,
    provider_state_outcome, stop_of, stop_outcome, succeeded, AttachmentGrant, RecoveryPolicy, LifecycleView, ProviderStateEffect,
    ProviderStateFacts, ReportFacts, WorkPhase,
};
use crate::agent_execution::permissions::ActionContext;
use crate::agent_execution::providers::SessionCloseRequest;
use vstd::prelude::*;

verus! {

/// A later request joins a running stop without replacing its first request or
/// its identity.
pub proof fn law_stop_keeps_first_request(v: LifecycleView, r: SessionCloseRequest)
    requires
        existing_stop(v) is Some,
    ensures
        stop_outcome(v, r).1.request == existing_stop(v)->0.ticket.request,
        stop_outcome(v, r).1.id == existing_stop(v)->0.ticket.id,
{
}

/// Every stop closes admission and revokes provider readiness.
pub proof fn law_stop_closes_admission(v: LifecycleView, r: SessionCloseRequest)
    ensures
        !(stop_outcome(v, r).0.status is Open),
        !stop_outcome(v, r).0.provider_ready,
{
}

/// An owner keeps the first stop that reached it, whatever stop follows.
pub proof fn law_owner_keeps_first_stop(v: LifecycleView, r: SessionCloseRequest, i: int)
    requires
        0 <= i < v.work.len(),
        v.work[i].cancellation is Some,
    ensures
        stop_outcome(v, r).0.work[i] == v.work[i],
{
    let existing = existing_stop(v);
    if existing is None {
        let d = super::lifecycle::detached(v);
        assert(d.work == v.work);
    }
}

/// A provider failure an owner of an older work generation observed changes
/// nothing: late failures never stop a newer generation.
pub proof fn law_stale_failure_is_ignored(v: LifecycleView, work_generation: u64)
    requires
        work_generation != v.work_generation,
    ensures
        provider_state_outcome(v, work_generation, ProviderStateFacts::CleanupRequired) == (
            v,
            ProviderStateEffect::Unchanged,
        ),
{
}

/// A provider failure of the current work generation closes open admission and
/// moves the lifecycle to a new work generation.
pub proof fn law_current_failure_fences(v: LifecycleView)
    requires
        v.status is Open,
    ensures
        !(provider_state_outcome(v, v.work_generation, ProviderStateFacts::CleanupRequired).0.status is Open),
        provider_state_outcome(v, v.work_generation, ProviderStateFacts::CleanupRequired).0.work_generation
            == (v.work_generation + 1) as u64,
{
}

/// Finalizing a stop reopens admission only after confirmed cleanup with delivered
/// audit, and only when every owner of an earlier work generation retired or waits.
pub proof fn law_reopen_needs_success(v: LifecycleView, id: u64, attempt_id: u64, given: ReportFacts)
    requires
        finalize_current(v, id, attempt_id),
        !stop_of(v.status)->0.finalized,
    ensures
        finalized(v, attempt_id, given).status is Open ==> {
            &&& succeeded(final_report(v, attempt_id, given))
            &&& forall|i: int| 0 <= i < finalized(v, attempt_id, given).work.len() ==> #[trigger] finalized(
                v,
                attempt_id,
                given,
            ).work[i].phase == WorkPhase::Waiting || finalized(v, attempt_id, given).work[i].work_generation
                == finalized(v, attempt_id, given).work_generation
        },
{
}

/// A stop's published result follows the given evidence's audit: failed audit
/// evidence is never published as delivered.
pub proof fn law_failed_audit_is_published(v: LifecycleView, id: u64, attempt_id: u64, given: ReportFacts)
    requires
        finalize_current(v, id, attempt_id),
        !stop_of(v.status)->0.finalized,
        !given.audit_ok,
    ensures
        !final_report(v, attempt_id, given).audit_ok,
        !(finalized(v, attempt_id, given).status is Open),
{
}

/// An explicit close owns its completion: the stop it starts never admits queued
/// input, whatever result it publishes.
pub proof fn law_explicit_stop_admits_no_queue(v: LifecycleView, actor: ActionContext, given: ReportFacts)
    requires
        existing_stop(v) is None,
    ensures
        ({
            let (v1, t) = stop_outcome(v, SessionCloseRequest::Explicit(actor));
            &&& !accepts_waiting(v1)
            &&& !accepts_waiting(finalized(v1, t.attempt_id, given))
        }),
{
    let (v1, t) = stop_outcome(v, SessionCloseRequest::Explicit(actor));
    assert(stop_of(v1.status)->0.ticket.request == SessionCloseRequest::Explicit(actor));
}

/// An authorization granted before a stop can no longer start an attachment after
/// it: the stop moves to a new attachment generation.
pub proof fn law_stop_revokes_authorization(v: LifecycleView, g: AttachmentGrant, r: SessionCloseRequest)
    requires
        grant_current(v, g, true),
    ensures
        !grant_current(stop_outcome(v, r).0, g, true),
{
}

/// A new stop retires the current work generation: every provider operation an
/// owner of that generation started loses its admission.
pub proof fn law_stop_retires_work_generation(
    v: LifecycleView,
    r: SessionCloseRequest,
    provider_generation: u64,
    preparation: bool,
)
    requires
        existing_stop(v) is None,
        v.work_generation < u64::MAX,
    ensures
        stop_outcome(v, r).0.work_generation == v.work_generation + 1,
        admission_lost(stop_outcome(v, r).0, v.work_generation, provider_generation, preparation),
{
}

/// An owner a stop newly reaches records that stop's own request, even when the
/// stop joined an earlier one with another first request.
pub proof fn law_reached_owner_records_its_stop(v: LifecycleView, r: SessionCloseRequest, i: int)
    requires
        0 <= i < v.work.len(),
        v.work[i].cancellation is None,
        v.work[i].phase == WorkPhase::Active || v.work[i].phase == WorkPhase::Executing,
    ensures
        stop_outcome(v, r).0.work[i].cancellation == Some(stop_event(r)),
{
    if existing_stop(v) is None {
        assert(super::lifecycle::detached(v).work == v.work);
    }
}

/// A provider failure keeps the first stop of every owner an earlier stop reached.
pub proof fn law_failure_keeps_first_stop(v: LifecycleView, work_generation: u64, st: ProviderStateFacts, i: int)
    requires
        0 <= i < v.work.len(),
        v.work[i].cancellation is Some,
    ensures
        provider_state_outcome(v, work_generation, st).0.work[i] == v.work[i],
{
}

/// Provider controls are admitted only while admission is open and a successful
/// preparation made the provider ready.
pub proof fn law_controls_need_readiness(v: LifecycleView)
    ensures
        accept_outcome(v, WorkPhase::Active, true) is Ok ==> v.status is Open && v.provider_ready,
{
}

/// A successful close reopens admission: when the current stop recovers
/// automatically or is an explicit close, its published result confirms cleanup
/// with delivered audit, and every owner of an earlier work generation retired or
/// waits, finalizing it leaves the session open. Only automatic recovery readies
/// the session to resume queued input; an explicit close does not.
pub proof fn law_successful_close_reopens(v: LifecycleView, id: u64, attempt_id: u64, given: ReportFacts)
    requires
        finalize_current(v, id, attempt_id),
        !stop_of(v.status)->0.finalized,
        stop_of(v.status)->0.recovery == RecoveryPolicy::Automatic || stop_of(v.status)->0.recovery
            == RecoveryPolicy::ExplicitClose,
        final_report(v, attempt_id, given).confirmed,
        final_report(v, attempt_id, given).audit_ok,
        forall|i: int|
            0 <= i < v.work.len() ==> #[trigger] v.work[i].phase == WorkPhase::Waiting || v.work[i].work_generation
                == v.work_generation,
    ensures
        finalized(v, attempt_id, given).status is Open,
        finalized(v, attempt_id, given).recovery_ready == (stop_of(v.status)->0.recovery == RecoveryPolicy::Automatic),
{
}

/// A stop whose recovery is neither automatic nor an explicit close never reopens
/// admission when it is finalized, whatever its result.
pub proof fn law_unproven_stop_stays_closed(v: LifecycleView, id: u64, attempt_id: u64, given: ReportFacts)
    requires
        finalize_current(v, id, attempt_id),
        !stop_of(v.status)->0.finalized,
        stop_of(v.status)->0.recovery == RecoveryPolicy::CleanupNotStarted || stop_of(v.status)->0.recovery
            == RecoveryPolicy::NeedsExplicitClose,
    ensures
        !(finalized(v, attempt_id, given).status is Open),
{
}

/// An explicit close owns its stop: whatever stop was running, the stop after an
/// explicit close request has the explicit-close recovery, so its successful
/// finalization reopens admission.
pub proof fn law_explicit_close_owns_the_stop(v: LifecycleView, actor: ActionContext)
    ensures
        stop_of(stop_outcome(v, SessionCloseRequest::Explicit(actor)).0.status) matches Some(s) ==> s.recovery
            == RecoveryPolicy::ExplicitClose,
{
}

} // verus!
