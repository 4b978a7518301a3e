//! Failures of repeated cleanup attempts of one attachment, joined without
//! counting a re-observed failure twice.
use crate::agent_execution::agents::comparison::{err_eq, same_error};
use crate::agent_execution::agents::error_limits::bounded_as;
use crate::agent_execution::agents::AgentError;
use vstd::prelude::*;

verus! {

/// The independent failures a failure tree holds, in order: successive failures
/// are flattened, anything else is one failure.
pub open spec fn failure_leaves(e: AgentError) -> Seq<AgentError>
    decreases e,
{
    match e {
        AgentError::MultipleOperationFailures { first_error, subsequent_error } => failure_leaves(*first_error)
            + failure_leaves(*subsequent_error),
        _ => seq![e],
    }
}

/// Number of nodes of a failure tree, counting successive failures as nodes.
pub open spec fn failure_nodes(e: AgentError) -> nat
    decreases e,
{
    match e {
        AgentError::MultipleOperationFailures { first_error, subsequent_error } => 1 + failure_nodes(*first_error)
            + failure_nodes(*subsequent_error),
        _ => 1,
    }
}

/// The leaves of a stack of failure trees, its top first.
pub open spec fn stack_leaves(p: Seq<AgentError>) -> Seq<AgentError>
    decreases p.len(),
{
    if p.len() == 0 {
        Seq::empty()
    } else {
        failure_leaves(p.last()) + stack_leaves(p.drop_last())
    }
}

/// The nodes of a stack of failure trees.
pub open spec fn stack_nodes(p: Seq<AgentError>) -> nat
    decreases p.len(),
{
    if p.len() == 0 {
        0
    } else {
        failure_nodes(p.last()) + stack_nodes(p.drop_last())
    }
}

/// Whether `s` holds a failure equal to `e` by content.
pub open spec fn holds_failure(s: Seq<AgentError>, e: AgentError) -> bool {
    exists|k: int| 0 <= k < s.len() && err_eq(s[k], e)
}

/// `s` keeping only the first of failures equal by content.
pub open spec fn distinct_failures(s: Seq<AgentError>) -> Seq<AgentError>
    decreases s.len(),
{
    if s.len() == 0 {
        Seq::empty()
    } else {
        let d = distinct_failures(s.drop_last());
        if holds_failure(d, s.last()) {
            d
        } else {
            d.push(s.last())
        }
    }
}

/// Failures nested as successive failures from the left.
pub open spec fn nest_failures(s: Seq<AgentError>) -> AgentError
    decreases s.len(),
{
    if s.len() <= 1 {
        s[0]
    } else {
        AgentError::MultipleOperationFailures {
            first_error: Box::new(nest_failures(s.drop_last())),
            subsequent_error: Box::new(s.last()),
        }
    }
}

/// Whether a diagnostic limit stands among `s`.
pub open spec fn limit_among(s: Seq<AgentError>) -> bool {
    exists|k: int| 0 <= k < s.len() && s[k] is DiagnosticLimit
}

proof fn lemma_leaves_nonempty(e: AgentError)
    ensures
        failure_leaves(e).len() >= 1,
    decreases e,
{
    if let AgentError::MultipleOperationFailures { first_error, subsequent_error } = e {
        lemma_leaves_nonempty(*first_error);
        lemma_leaves_nonempty(*subsequent_error);
    }
}

proof fn lemma_distinct_nonempty(s: Seq<AgentError>)
    requires
        s.len() >= 1,
    ensures
        distinct_failures(s).len() >= 1,
    decreases s.len(),
{
    if s.len() > 1 {
        lemma_distinct_nonempty(s.drop_last());
    }
}

/// Joins the failures of two cleanup attempts: both trees are flattened in order,
/// a failure already present by content is kept once, and the rest nest as
/// successive failures, bounded. A diagnostic limit anywhere is the whole result.
pub fn combine_failures(first: AgentError, next: AgentError) -> (r: AgentError)
    ensures
        ({
            let leaves = failure_leaves(first) + failure_leaves(next);
            &&& limit_among(leaves) ==> r is DiagnosticLimit
            &&& !limit_among(leaves) ==> bounded_as(nest_failures(distinct_failures(leaves)), r)
        }),
{
    let ghost all = failure_leaves(first) + failure_leaves(next);
    let mut pending: Vec<AgentError> = Vec::new();
    pending.push(next);
    pending.push(first);
    let mut failures: Vec<AgentError> = Vec::new();
    let ghost mut processed: Seq<AgentError> = Seq::empty();
    proof {
        assert(pending@.drop_last() == seq![next]);
        assert(pending@.drop_last().drop_last() == Seq::<AgentError>::empty());
        assert(stack_leaves(Seq::<AgentError>::empty()) == Seq::<AgentError>::empty());
        assert(stack_leaves(seq![next]) == failure_leaves(next) + stack_leaves(Seq::<AgentError>::empty()));
        assert(failure_leaves(next) + Seq::<AgentError>::empty() == failure_leaves(next));
        assert(stack_leaves(pending@) == failure_leaves(first) + stack_leaves(seq![next]));
        assert(stack_leaves(pending@) == all);
    }
    while pending.len() > 0
        invariant
            all == failure_leaves(first) + failure_leaves(next),
            all == processed + stack_leaves(pending@),
            failures@ == distinct_failures(processed),
            !limit_among(processed),
        decreases stack_nodes(pending@),
    {
        let ghost before = pending@;
        let error = match pending.pop() {
            Some(e) => e,
            None => return AgentError::DiagnosticLimit,
        };
        proof {
            assert(before.drop_last() == pending@);
            assert(before.last() == error);
        }
        match error {
            AgentError::MultipleOperationFailures { first_error, subsequent_error } => {
                let ghost f = *first_error;
                let ghost s = *subsequent_error;
                pending.push(*subsequent_error);
                pending.push(*first_error);
                proof {
                    let p1 = pending@.drop_last();
                    assert(p1.drop_last() == before.drop_last());
                    assert(p1.last() == s);
                    assert(pending@.last() == f);
                    assert(stack_leaves(p1) == failure_leaves(s) + stack_leaves(before.drop_last()));
                    assert(stack_leaves(pending@) == failure_leaves(f) + stack_leaves(p1));
                    assert(stack_leaves(before) == failure_leaves(error) + stack_leaves(before.drop_last()));
                    assert(failure_leaves(error) == failure_leaves(f) + failure_leaves(s));
                    assert(stack_leaves(pending@) == stack_leaves(before));
                    assert(stack_nodes(p1) == failure_nodes(s) + stack_nodes(before.drop_last()));
                    assert(stack_nodes(pending@) == failure_nodes(f) + stack_nodes(p1));
                    assert(stack_nodes(before) == failure_nodes(error) + stack_nodes(before.drop_last()));
                }
            },
            AgentError::DiagnosticLimit => {
                proof {
                    assert(stack_leaves(before) == failure_leaves(error) + stack_leaves(before.drop_last()));
                    assert(failure_leaves(error) == seq![error]);
                    assert(all[processed.len() as int] == error);
                    assert(all[processed.len() as int] is DiagnosticLimit);
                    assert(limit_among(all));
                }
                return AgentError::DiagnosticLimit;
            },
            e => {
                proof {
                    assert(stack_leaves(before) == failure_leaves(e) + stack_leaves(before.drop_last()));
                    assert(stack_nodes(before) == failure_nodes(e) + stack_nodes(before.drop_last()));
                    assert(failure_leaves(e) == seq![e]);
                    assert(all == processed.push(e) + stack_leaves(pending@));
                    assert(processed.push(e).drop_last() == processed);
                    assert(!limit_among(processed.push(e))) by {
                        if limit_among(processed.push(e)) {
                            let k = choose|k: int| 0 <= k < processed.push(e).len() && processed.push(e)[k] is DiagnosticLimit;
                            if k < processed.len() {
                                assert(processed[k] is DiagnosticLimit);
                            }
                        }
                    }
                }
                let mut seen = false;
                let mut k: usize = 0;
                while k < failures.len()
                    invariant
                        k <= failures@.len(),
                        seen == exists|j: int| 0 <= j < k && err_eq(failures@[j], e),
                    decreases failures.len() - k,
                {
                    if same_error(&failures[k], &e) {
                        seen = true;
                    }
                    k = k + 1;
                }
                if !seen {
                    failures.push(e);
                }
                proof {
                    processed = processed.push(e);
                }
            },
        }
    }
    proof {
        assert(processed == all);
        lemma_leaves_nonempty(first);
        lemma_distinct_nonempty(all);
    }
    let ghost listed = failures@;
    let n = failures.len();
    let mut nested = failures.remove(0);
    let mut taken: usize = 1;
    proof {
        assert(listed.take(1) == seq![listed[0]]);
    }
    while failures.len() > 0
        invariant
            1 <= taken <= listed.len(),
            listed.len() == n,
            failures@ == listed.skip(taken as int),
            nested == nest_failures(listed.take(taken as int)),
        decreases failures.len(),
    {
        let e = failures.remove(0);
        proof {
            assert(e == listed[taken as int]);
            assert(listed.take(taken + 1).drop_last() == listed.take(taken as int));
            assert(listed.take(taken + 1).last() == e);
            assert(failures@ == listed.skip(taken + 1));
        }
        nested = AgentError::MultipleOperationFailures { first_error: Box::new(nested), subsequent_error: Box::new(e) };
        taken = taken + 1;
    }
    proof {
        assert(listed.take(listed.len() as int) == listed);
    }
    nested.bounded()
}

/// Re-observing one failure adds nothing: joined with itself, a single failure is
/// kept once.
pub proof fn law_reobserved_failure_adds_nothing(e: AgentError)
    requires
        !(e is MultipleOperationFailures),
        !(e is DiagnosticLimit),
    ensures
        !limit_among(failure_leaves(e) + failure_leaves(e)),
        nest_failures(distinct_failures(failure_leaves(e) + failure_leaves(e))) == e,
{
    let leaves = failure_leaves(e) + failure_leaves(e);
    assert(leaves == seq![e, e]);
    assert(leaves.drop_last() == seq![e]);
    assert(seq![e].drop_last() == Seq::<AgentError>::empty());
    assert(distinct_failures(Seq::<AgentError>::empty()) == Seq::<AgentError>::empty());
    assert(!holds_failure(Seq::<AgentError>::empty(), e));
    assert(Seq::<AgentError>::empty().push(e) == seq![e]);
    assert(distinct_failures(seq![e]) == seq![e]);
    assert(err_eq(seq![e][0], e));
    assert(distinct_failures(leaves) == seq![e]);
}

} // verus!
