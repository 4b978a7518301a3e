//! Validated recipes keep finalized execution failures without conflating sources.
use crate::agent_execution::agents::comparison::{content, copy_error, ErrorContent};
use crate::agent_execution::agents::error_limits::bounded_as;
use crate::agent_execution::agents::AgentError;
use crate::domain::executions::ExecutionOutcome;
use vstd::prelude::*;

verus! {

/// Largest number of operation facts, and separately of audit facts, in one recipe.
pub const MAX_FINALIZED_FACTS_PER_CATEGORY: usize = 128;

/// Largest number of failures projected into one diagnostic tree.
pub const MAX_PROJECTED_FAILURES: usize = 32;

/// One authoritative finalized execution failure fact.
#[derive(Debug, PartialEq, Eq)]
pub enum FinalizedFailureComponent {
    /// An operation failed independently of audit delivery.
    Operation(AgentError),
    /// One required audit attempt failed.
    Audit,
    /// One permission write and its correlated delivery audit both failed.
    PermissionDeliveryAndAudit {
        /// The delivery failure.
        delivery_error: AgentError,
    },
    /// More operation facts existed than the recipe can hold.
    OperationOverflow,
    /// More audit facts existed than the recipe can hold.
    AuditOverflow,
}

/// Whether a component records an operation failure.
pub open spec fn is_operation(c: FinalizedFailureComponent) -> bool {
    c is Operation || c is PermissionDeliveryAndAudit
}

/// Whether a component records an audit failure.
pub open spec fn is_audit(c: FinalizedFailureComponent) -> bool {
    c is Audit || c is PermissionDeliveryAndAudit
}

/// Number of operation facts in `s`.
pub open spec fn operation_count(s: Seq<FinalizedFailureComponent>) -> int
    decreases s.len(),
{
    if s.len() == 0 {
        0
    } else {
        operation_count(s.drop_last()) + if is_operation(s.last()) { 1int } else { 0int }
    }
}

/// Number of audit facts in `s`.
pub open spec fn audit_count(s: Seq<FinalizedFailureComponent>) -> int
    decreases s.len(),
{
    if s.len() == 0 {
        0
    } else {
        audit_count(s.drop_last()) + if is_audit(s.last()) { 1int } else { 0int }
    }
}

/// A valid recipe: each overflow marker occurs at most once and nothing of its
/// category follows it, and each category holds at most 128 facts.
pub open spec fn recipe_valid(s: Seq<FinalizedFailureComponent>) -> bool {
    &&& forall|i: int, j: int|
        0 <= i < j < s.len() && #[trigger] s[i] is OperationOverflow ==> !(#[trigger] s[j] is OperationOverflow)
            && !is_operation(s[j])
    &&& forall|i: int, j: int|
        0 <= i < j < s.len() && #[trigger] s[i] is AuditOverflow ==> !(#[trigger] s[j] is AuditOverflow)
            && !is_audit(s[j])
    &&& operation_count(s) <= MAX_FINALIZED_FACTS_PER_CATEGORY
    &&& audit_count(s) <= MAX_FINALIZED_FACTS_PER_CATEGORY
}

/// Whether `after` is `before` with its failures bounded.
pub open spec fn component_bounded(before: FinalizedFailureComponent, after: FinalizedFailureComponent) -> bool {
    match before {
        FinalizedFailureComponent::Operation(e) => after matches FinalizedFailureComponent::Operation(b) && bounded_as(e, b),
        FinalizedFailureComponent::PermissionDeliveryAndAudit { delivery_error } => after matches FinalizedFailureComponent::PermissionDeliveryAndAudit {
            delivery_error: b,
        } && bounded_as(delivery_error, b),
        _ => after == before,
    }
}

/// The failures a recipe contributes to its operation diagnostic, in order.
pub open spec fn operation_facts(s: Seq<FinalizedFailureComponent>) -> Seq<ErrorContent>
    decreases s.len(),
{
    if s.len() == 0 {
        Seq::empty()
    } else {
        let rest = operation_facts(s.drop_last());
        match s.last() {
            FinalizedFailureComponent::Operation(e) => rest.push(content(e)),
            FinalizedFailureComponent::PermissionDeliveryAndAudit { delivery_error } => rest.push(content(delivery_error)),
            FinalizedFailureComponent::OperationOverflow => rest.push(ErrorContent::DiagnosticLimit),
            _ => rest,
        }
    }
}

/// The failures a recipe contributes to its audit diagnostic, in order.
pub open spec fn audit_facts(s: Seq<FinalizedFailureComponent>) -> Seq<ErrorContent>
    decreases s.len(),
{
    if s.len() == 0 {
        Seq::empty()
    } else {
        let rest = audit_facts(s.drop_last());
        match s.last() {
            FinalizedFailureComponent::Audit | FinalizedFailureComponent::PermissionDeliveryAndAudit { .. } => rest.push(
                ErrorContent::AuditFailure,
            ),
            FinalizedFailureComponent::AuditOverflow => rest.push(ErrorContent::DiagnosticLimit),
            _ => rest,
        }
    }
}

/// What each component says to a consumer, in order.
pub open spec fn consumer_facts(s: Seq<FinalizedFailureComponent>) -> Seq<ErrorContent> {
    Seq::new(
        s.len(),
        |i: int|
            match s[i] {
                FinalizedFailureComponent::Operation(e) => content(e),
                FinalizedFailureComponent::Audit => ErrorContent::AuditFailure,
                FinalizedFailureComponent::PermissionDeliveryAndAudit { delivery_error } => ErrorContent::PermissionAnswerDeliveryAndAuditFailure(
                    Box::new(content(delivery_error)),
                    None,
                ),
                _ => ErrorContent::DiagnosticLimit,
            },
    )
}

/// A balanced pairing of failures: halves are paired recursively, earlier first.
pub open spec fn balanced_content(s: Seq<ErrorContent>) -> Option<ErrorContent>
    decreases s.len(),
{
    if s.len() == 0 {
        None
    } else if s.len() == 1 {
        Some(s[0])
    } else {
        let m = s.len() / 2;
        Some(
            ErrorContent::MultipleOperationFailures(
                Box::new(balanced_content(s.take(m as int))->0),
                Box::new(balanced_content(s.skip(m as int))->0),
            ),
        )
    }
}

/// At most 32 failures: a longer list keeps its first 31 and marks the rest.
pub open spec fn capped(s: Seq<ErrorContent>) -> Seq<ErrorContent> {
    if s.len() >= MAX_PROJECTED_FAILURES {
        s.take(MAX_PROJECTED_FAILURES - 1).push(ErrorContent::DiagnosticLimit)
    } else {
        s
    }
}

/// Whether `x` is what bounding a failure that says `t` gives.
pub open spec fn bounds_to(t: ErrorContent, x: AgentError) -> bool {
    exists|e: AgentError| content(e) == t && bounded_as(e, x)
}

/// Whether `r` is the bounded balanced pairing of `s`: `None` exactly for no failure.
pub open spec fn projects(s: Seq<ErrorContent>, r: Option<AgentError>) -> bool {
    match balanced_content(s) {
        None => r is None,
        Some(t) => r matches Some(x) && bounds_to(t, x),
    }
}

/// Validated, ordered authority for a finalized execution's secondary failures.
#[derive(Debug, PartialEq, Eq)]
pub struct FinalizedExecutionProjection {
    components: Vec<FinalizedFailureComponent>,
}

proof fn lemma_balanced_some(s: Seq<ErrorContent>)
    ensures
        balanced_content(s) is Some <==> s.len() > 0,
    decreases s.len(),
{
}

fn balanced_range(errors: &Vec<AgentError>, lo: usize, hi: usize) -> (r: Option<AgentError>)
    requires
        lo <= hi <= errors.len(),
    ensures
        match balanced_content(errors@.subrange(lo as int, hi as int).map_values(|e: AgentError| content(e))) {
            None => r is None,
            Some(t) => r matches Some(x) && content(x) == t,
        },
    decreases hi - lo,
{
    let ghost s = errors@.subrange(lo as int, hi as int).map_values(|e: AgentError| content(e));
    if lo == hi {
        return None;
    }
    if hi - lo == 1 {
        let e = copy_error(&errors[lo]);
        return Some(e);
    }
    let middle = lo + (hi - lo) / 2;
    proof {
        let m = (hi - lo) / 2;
        assert(s.take(m as int) =~= errors@.subrange(lo as int, middle as int).map_values(|e: AgentError| content(e)));
        assert(s.skip(m as int) =~= errors@.subrange(middle as int, hi as int).map_values(|e: AgentError| content(e)));
        lemma_balanced_some(s.take(m as int));
        lemma_balanced_some(s.skip(m as int));
    }
    let first = balanced_range(errors, lo, middle);
    let second = balanced_range(errors, middle, hi);
    match (first, second) {
        (Some(a), Some(b)) => Some(
            AgentError::MultipleOperationFailures { first_error: Box::new(a), subsequent_error: Box::new(b) },
        ),
        _ => None,
    }
}

fn balanced(errors: &Vec<AgentError>) -> (r: Option<AgentError>)
    ensures
        match balanced_content(errors@.map_values(|e: AgentError| content(e))) {
            None => r is None,
            Some(t) => r matches Some(x) && content(x) == t,
        },
{
    proof {
        assert(errors@.subrange(0, errors@.len() as int) =~= errors@);
    }
    balanced_range(errors, 0, errors.len())
}

fn bound_projection(t: Option<AgentError>) -> (r: Option<AgentError>)
    ensures
        match t {
            None => r is None,
            Some(e) => r matches Some(x) && bounds_to(content(e), x),
        },
{
    match t {
        None => None,
        Some(e) => {
            let ghost before = e;
            let x = e.bounded();
            assert(content(before) == content(before) && bounded_as(before, x));
            Some(x)
        },
    }
}

fn project_category(errors: Vec<AgentError>) -> (r: Option<AgentError>)
    ensures
        projects(capped(errors@.map_values(|e: AgentError| content(e))), r),
{
    let mut errors = errors;
    let ghost original = errors@.map_values(|e: AgentError| content(e));
    if errors.len() >= MAX_PROJECTED_FAILURES {
        errors.truncate(MAX_PROJECTED_FAILURES - 1);
        errors.push(AgentError::DiagnosticLimit);
        assert(errors@.map_values(|e: AgentError| content(e)) =~= capped(original));
    } else {
        assert(errors@.map_values(|e: AgentError| content(e)) =~= capped(original));
    }
    bound_projection(balanced(&errors))
}

impl FinalizedExecutionProjection {
    /// Ordered components.
    pub closed spec fn spec_components(self) -> Seq<FinalizedFailureComponent> {
        self.components@
    }

    /// Validates and normalizes a finalized recipe, bounding its failures. Refuses a
    /// repeated overflow marker, a fact after its category's marker, and more than
    /// 128 facts of one category.
    pub fn new(components: Vec<FinalizedFailureComponent>) -> (r: Result<Self, &'static str>)
        ensures
            r is Ok <==> recipe_valid(components@),
            r matches Ok(p) ==> p.spec_components().len() == components@.len() && forall|i: int|
                0 <= i < components@.len() ==> component_bounded(components@[i], #[trigger] p.spec_components()[i]),
    {
        let mut bounded: Vec<FinalizedFailureComponent> = Vec::new();
        let ghost input = components@;
        let mut remaining = components;
        proof {
            assert(remaining@ =~= input.subrange(0, input.len() as int));
        }
        while remaining.len() > 0
            invariant
                input == components@,
                bounded@.len() + remaining@.len() == input.len(),
                remaining@ == input.subrange(bounded@.len() as int, input.len() as int),
                forall|i: int| 0 <= i < bounded@.len() ==> component_bounded(input[i], #[trigger] bounded@[i]),
            decreases remaining@.len(),
        {
            let c = remaining.remove(0);
            proof {
                assert(c == input[bounded@.len() as int]);
                assert(remaining@ =~= input.subrange(bounded@.len() as int + 1, input.len() as int));
            }
            let b = match c {
                FinalizedFailureComponent::Operation(error) => FinalizedFailureComponent::Operation(error.bounded()),
                FinalizedFailureComponent::PermissionDeliveryAndAudit { delivery_error } => FinalizedFailureComponent::PermissionDeliveryAndAudit {
                    delivery_error: delivery_error.bounded(),
                },
                FinalizedFailureComponent::Audit => FinalizedFailureComponent::Audit,
                FinalizedFailureComponent::OperationOverflow => FinalizedFailureComponent::OperationOverflow,
                FinalizedFailureComponent::AuditOverflow => FinalizedFailureComponent::AuditOverflow,
            };
            bounded.push(b);
        }
        let mut operations: usize = 0;
        let mut audits: usize = 0;
        let mut operation_overflow = false;
        let mut audit_overflow = false;
        let mut i: usize = 0;
        while i < bounded.len()
            invariant
                input == components@,
                bounded@.len() == input.len(),
                forall|j: int| 0 <= j < bounded@.len() ==> component_bounded(input[j], #[trigger] bounded@[j]),
                i <= bounded@.len(),
                operations == operation_count(input.take(i as int)),
                audits == audit_count(input.take(i as int)),
                operations <= MAX_FINALIZED_FACTS_PER_CATEGORY,
                audits <= MAX_FINALIZED_FACTS_PER_CATEGORY,
                operation_overflow <==> exists|j: int| 0 <= j < i && #[trigger] input[j] is OperationOverflow,
                audit_overflow <==> exists|j: int| 0 <= j < i && #[trigger] input[j] is AuditOverflow,
                recipe_valid(input.take(i as int)),
            decreases bounded@.len() - i,
        {
            let ghost c = input[i as int];
            proof {
                assert(component_bounded(input[i as int], bounded@[i as int]));
                assert(input.take(i + 1).drop_last() =~= input.take(i as int));
            }
            let (operation, audit) = match &bounded[i] {
                FinalizedFailureComponent::Operation(_) => (true, false),
                FinalizedFailureComponent::Audit => (false, true),
                FinalizedFailureComponent::PermissionDeliveryAndAudit { .. } => (true, true),
                FinalizedFailureComponent::OperationOverflow => {
                    if operation_overflow {
                        proof {
                            let j = choose|j: int| 0 <= j < i && #[trigger] input[j] is OperationOverflow;
                            assert(!recipe_valid(input)) by {
                                assert(input[j] is OperationOverflow && input[i as int] is OperationOverflow);
                            }
                        }
                        return Err("finalized operation overflow is repeated");
                    }
                    operation_overflow = true;
                    (false, false)
                },
                FinalizedFailureComponent::AuditOverflow => {
                    if audit_overflow {
                        proof {
                            let j = choose|j: int| 0 <= j < i && #[trigger] input[j] is AuditOverflow;
                            assert(!recipe_valid(input)) by {
                                assert(input[j] is AuditOverflow && input[i as int] is AuditOverflow);
                            }
                        }
                        return Err("finalized audit overflow is repeated");
                    }
                    audit_overflow = true;
                    (false, false)
                },
            };
            if operation && operation_overflow {
                proof {
                    let j = choose|j: int| 0 <= j < i && #[trigger] input[j] is OperationOverflow;
                    assert(!recipe_valid(input)) by {
                        assert(input[j] is OperationOverflow && is_operation(input[i as int]));
                    }
                }
                return Err("finalized operation follows its overflow marker");
            }
            if audit && audit_overflow {
                proof {
                    let j = choose|j: int| 0 <= j < i && #[trigger] input[j] is AuditOverflow;
                    assert(!recipe_valid(input)) by {
                        assert(input[j] is AuditOverflow && is_audit(input[i as int]));
                    }
                }
                return Err("finalized audit follows its overflow marker");
            }
            if operation {
                operations = operations + 1;
            }
            if audit {
                audits = audits + 1;
            }
            if operations > MAX_FINALIZED_FACTS_PER_CATEGORY || audits > MAX_FINALIZED_FACTS_PER_CATEGORY {
                proof {
                    lemma_counts_prefix(input, i + 1);
                }
                return Err("finalized execution failure facts exceed their category budget");
            }
            proof {
                let t = input.take(i + 1);
                assert forall|a: int, b: int|
                    0 <= a < b < t.len() && #[trigger] t[a] is OperationOverflow implies !(#[trigger] t[b] is OperationOverflow)
                        && !is_operation(t[b]) by {
                    if b < i {
                        assert(input.take(i as int)[a] == t[a] && input.take(i as int)[b] == t[b]);
                    } else {
                        assert(input[a] is OperationOverflow);
                    }
                }
                assert forall|a: int, b: int|
                    0 <= a < b < t.len() && #[trigger] t[a] is AuditOverflow implies !(#[trigger] t[b] is AuditOverflow)
                        && !is_audit(t[b]) by {
                    if b < i {
                        assert(input.take(i as int)[a] == t[a] && input.take(i as int)[b] == t[b]);
                    } else {
                        assert(input[a] is AuditOverflow);
                    }
                }
            }
            i = i + 1;
        }
        proof {
            assert(input.take(input.len() as int) =~= input);
        }
        Ok(FinalizedExecutionProjection { components: bounded })
    }

    /// Ordered components.
    pub fn components(&self) -> (r: &[FinalizedFailureComponent])
        ensures
            r@ == self.spec_components(),
    {
        self.components.as_slice()
    }
}

proof fn lemma_counts_prefix(s: Seq<FinalizedFailureComponent>, i: int)
    requires
        0 <= i <= s.len(),
    ensures
        operation_count(s.take(i)) <= operation_count(s),
        audit_count(s.take(i)) <= audit_count(s),
    decreases s.len(),
{
    if i < s.len() {
        lemma_counts_prefix(s.drop_last(), i);
        assert(s.drop_last().take(i) =~= s.take(i));
    } else {
        assert(s.take(i) =~= s);
    }
}

impl FinalizedExecutionProjection {
    /// The operation diagnostic: each operation failure, delivery failure and
    /// overflow marker in order, at most 32 (the rest marked), paired into a
    /// balanced tree and bounded; `None` without operation facts.
    pub fn operation_failure(&self) -> (r: Option<AgentError>)
        ensures
            projects(capped(operation_facts(self.spec_components())), r),
    {
        let mut errors: Vec<AgentError> = Vec::new();
        let mut i: usize = 0;
        while i < self.components.len()
            invariant
                i <= self.components@.len(),
                errors@.map_values(|e: AgentError| content(e)) == operation_facts(self.components@.take(i as int)),
            decreases self.components@.len() - i,
        {
            let ghost before = errors@;
            proof {
                assert(self.components@.take(i + 1).drop_last() =~= self.components@.take(i as int));
            }
            match &self.components[i] {
                FinalizedFailureComponent::Operation(error) => errors.push(copy_error(error)),
                FinalizedFailureComponent::PermissionDeliveryAndAudit { delivery_error } => errors.push(
                    copy_error(delivery_error),
                ),
                FinalizedFailureComponent::OperationOverflow => errors.push(AgentError::DiagnosticLimit),
                _ => {},
            }
            proof {
                assert(errors@.map_values(|e: AgentError| content(e)) =~= operation_facts(
                    self.components@.take(i + 1),
                ));
            }
            i = i + 1;
        }
        proof {
            assert(self.components@.take(self.components@.len() as int) =~= self.components@);
        }
        project_category(errors)
    }

    /// The audit result: `Ok` without audit facts; otherwise one audit failure per
    /// failed audit and a marker for overflow, capped, paired and bounded.
    pub fn audit_result(&self) -> (r: Result<(), AgentError>)
        ensures
            r is Ok <==> audit_facts(self.spec_components()).len() == 0,
            r matches Err(x) ==> projects(capped(audit_facts(self.spec_components())), Some(x)),
    {
        let mut errors: Vec<AgentError> = Vec::new();
        let mut i: usize = 0;
        while i < self.components.len()
            invariant
                i <= self.components@.len(),
                errors@.map_values(|e: AgentError| content(e)) == audit_facts(self.components@.take(i as int)),
            decreases self.components@.len() - i,
        {
            proof {
                assert(self.components@.take(i + 1).drop_last() =~= self.components@.take(i as int));
            }
            match &self.components[i] {
                FinalizedFailureComponent::Audit | FinalizedFailureComponent::PermissionDeliveryAndAudit { .. } => errors.push(
                    AgentError::AuditFailure,
                ),
                FinalizedFailureComponent::AuditOverflow => errors.push(AgentError::DiagnosticLimit),
                _ => {},
            }
            proof {
                assert(errors@.map_values(|e: AgentError| content(e)) =~= audit_facts(self.components@.take(i + 1)));
            }
            i = i + 1;
        }
        proof {
            assert(self.components@.take(self.components@.len() as int) =~= self.components@);
            let f = audit_facts(self.components@);
            lemma_balanced_some(capped(f));
        }
        match project_category(errors) {
            Some(e) => Err(e),
            None => Ok(()),
        }
    }

    /// The consumer diagnostic: every component as the failure it reports, paired
    /// into a balanced tree and bounded; [`AgentError::DiagnosticLimit`] for more
    /// than 32 components; `None` for none.
    pub fn consumer_failure(&self) -> (r: Option<AgentError>)
        ensures
            if self.spec_components().len() > MAX_PROJECTED_FAILURES {
                r == Some(AgentError::DiagnosticLimit)
            } else {
                projects(consumer_facts(self.spec_components()), r)
            },
    {
        let mut errors: Vec<AgentError> = Vec::new();
        let mut i: usize = 0;
        while i < self.components.len()
            invariant
                i <= self.components@.len(),
                errors@.map_values(|e: AgentError| content(e)) == consumer_facts(self.components@).take(i as int),
            decreases self.components@.len() - i,
        {
            let e = match &self.components[i] {
                FinalizedFailureComponent::Operation(error) => copy_error(error),
                FinalizedFailureComponent::Audit => AgentError::AuditFailure,
                FinalizedFailureComponent::PermissionDeliveryAndAudit { delivery_error } => AgentError::PermissionAnswerDeliveryAndAuditFailure {
                    delivery_error: Box::new(copy_error(delivery_error)),
                    cleanup_error: None,
                },
                FinalizedFailureComponent::OperationOverflow | FinalizedFailureComponent::AuditOverflow => AgentError::DiagnosticLimit,
            };
            assert(content(e) == consumer_facts(self.components@)[i as int]);
            let ghost before = errors@;
            errors.push(e);
            proof {
                assert(errors@ == before.push(e));
                let cf = consumer_facts(self.components@);
                let now = errors@.map_values(|e: AgentError| content(e));
                let was = before.map_values(|e: AgentError| content(e));
                assert(was.len() == before.len());
                assert(cf.take(i as int).len() == i);
                assert(before.len() == i);
                assert forall|k: int| 0 <= k < i + 1 implies #[trigger] now[k] == cf.take(i + 1)[k] by {
                    if k < i {
                        assert(was[k] == cf.take(i as int)[k]);
                        assert(errors@[k] == before[k]);
                        assert(now[k] == content(errors@[k]));
                        assert(was[k] == content(before[k]));
                    } else {
                        assert(now[k] == content(errors@[k]));
                    }
                }
                assert(errors@.map_values(|e: AgentError| content(e)) =~= cf.take(i + 1));
            }
            i = i + 1;
        }
        proof {
            assert(consumer_facts(self.components@).take(self.components@.len() as int) =~= consumer_facts(self.components@));
        }
        if errors.len() > MAX_PROJECTED_FAILURES {
            Some(AgentError::DiagnosticLimit)
        } else {
            bound_projection(balanced(&errors))
        }
    }
}

/// Finalized origin retained with its authoritative recipe.
#[derive(Debug, PartialEq, Eq)]
pub enum FinalizedExecutionSource {
    /// Actual provider outcome, or `None` while it is unknown.
    Provider(Option<Result<ExecutionOutcome, AgentError>>),
    /// The owning agent settled the invocation locally.
    LocalCancellation,
}

} // verus!
