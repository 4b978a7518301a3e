//! Bounds on adapter-owned error trees, checked before they are cloned or retained.
use super::AgentError;
use crate::agent_execution::hooks::{HookError, HookFailure};
use crate::agent_execution::sessions::StorageError;
use crate::sums::{lemma_sum_push, seq_sum};
use crate::text::{blen, sat};
use vstd::layout::size_of;
use vstd::prelude::*;
use vstd::utf8::{decode_utf8, encode_utf8, is_char_boundary};

verus! {

/// Largest retained bytes of one error tree (1 MiB).
pub const MAX_ERROR_BYTES: usize = 1048576;

/// Largest number of nodes of one error tree, hook failures included.
pub const MAX_ERROR_NODES: usize = 128;

/// Largest depth of one error tree.
pub const MAX_ERROR_DEPTH: usize = 32;

/// Text bytes a storage failure retains.
pub open spec fn storage_text(e: StorageError) -> int {
    match e {
        StorageError::Io(t) | StorageError::Corrupt(t) => blen(t@) as int,
        _ => 0,
    }
}

/// Text bytes a hook failure retains.
pub open spec fn hook_text(f: HookFailure) -> int {
    match f.error {
        HookError::Failed(t) => blen(t@) as int,
        HookError::Panicked => 0,
    }
}

/// Text bytes of a list of hook failures.
pub open spec fn hooks_text(s: Seq<HookFailure>) -> int
    decreases s.len(),
{
    if s.len() == 0 {
        0
    } else {
        hooks_text(s.drop_last()) + hook_text(s.last())
    }
}

/// Nodes one error counts by itself: one, and one per hook failure it lists.
pub open spec fn own_nodes(e: AgentError) -> int {
    1 + match e {
        AgentError::AfterInvocationHooks { failures, .. } => failures.len() as int,
        _ => 0,
    }
}

/// Bytes one error retains by itself: its slot and the text and hook failures it
/// owns, its sub-errors aside. Text is charged by its UTF-8 length and a hook list
/// by its length; spare allocation behind a `String` or `Vec` is not charged, since
/// what an allocator hands out is no function of the value.
pub open spec fn own_bytes(e: AgentError) -> int {
    size_of::<AgentError>() + match e {
        AgentError::Configuration(t)
        | AgentError::Unsupported(t)
        | AgentError::InvalidInput(t)
        | AgentError::Protocol(t)
        | AgentError::Transport(t) => blen(t@) as int,
        AgentError::Storage(s) => storage_text(s),
        AgentError::StorageDuringClose { error, .. } => storage_text(error),
        AgentError::StorageInitialization { error, .. } => storage_text(error),
        AgentError::StorageAfterExecution { error, .. } => storage_text(error),
        AgentError::BeforeInvocationHook(f) => hook_text(f),
        AgentError::AfterInvocationHooks { failures, .. } => failures.len() * size_of::<HookFailure>()
            + hooks_text(failures@),
        _ => 0,
    }
}

/// The direct sub-errors of `e`, in the order they are listed.
pub open spec fn children_of(e: AgentError) -> Seq<AgentError> {
    match e {
        AgentError::ExecutionObservation { error, execution_result } => seq![*error] + match execution_result {
            Some(r) => match *r {
                Err(x) => seq![x],
                Ok(_) => Seq::empty(),
            },
            None => Seq::empty(),
        },
        AgentError::MultipleOperationFailures { first_error, subsequent_error } => seq![*first_error, *subsequent_error],
        AgentError::OperationAndCleanupFailure { operation_error, cleanup_error } => seq![*operation_error, *cleanup_error],
        AgentError::StorageDuringClose { cleanup_result, .. } => match *cleanup_result {
            Err(x) => seq![x],
            Ok(_) => Seq::empty(),
        },
        AgentError::StorageInitialization { cleanup_result, .. } => match *cleanup_result {
            Err(x) => seq![x],
            Ok(_) => Seq::empty(),
        },
        AgentError::StorageAfterExecution { execution_result, .. } => match *execution_result {
            Err(x) => seq![x],
            Ok(_) => Seq::empty(),
        },
        AgentError::AfterInvocationHooks { execution_result, .. } => match *execution_result {
            Err(x) => seq![x],
            Ok(_) => Seq::empty(),
        },
        AgentError::PermissionAnswerDeliveryAndAuditFailure { delivery_error, cleanup_error } => seq![*delivery_error]
            + match cleanup_error {
            Some(x) => seq![*x],
            None => Seq::empty(),
        },
        _ => Seq::empty(),
    }
}

/// Nodes, bytes and height of an error tree together.
pub struct TreeMeasure {
    /// Nodes, hook failures included.
    pub nodes: int,
    /// Retained bytes.
    pub bytes: int,
    /// Height: one for an error without sub-errors.
    pub height: int,
}

/// The measures of two disjoint groups of sub-errors together.
pub open spec fn join(a: TreeMeasure, b: TreeMeasure) -> TreeMeasure {
    TreeMeasure {
        nodes: a.nodes + b.nodes,
        bytes: a.bytes + b.bytes,
        height: if a.height >= b.height {
            a.height
        } else {
            b.height
        },
    }
}

/// The measure of no sub-error.
pub open spec fn nothing() -> TreeMeasure {
    TreeMeasure { nodes: 0, bytes: 0, height: 0 }
}

/// Nodes, bytes and height of the error tree rooted at `e`.
pub open spec fn measure(e: AgentError) -> TreeMeasure
    decreases e,
{
    let below = match e {
        AgentError::ExecutionObservation { error, execution_result } => join(
            measure(*error),
            match execution_result {
                Some(r) => match *r {
                    Err(x) => measure(x),
                    Ok(_) => nothing(),
                },
                None => nothing(),
            },
        ),
        AgentError::MultipleOperationFailures { first_error, subsequent_error } => join(
            measure(*first_error),
            measure(*subsequent_error),
        ),
        AgentError::OperationAndCleanupFailure { operation_error, cleanup_error } => join(
            measure(*operation_error),
            measure(*cleanup_error),
        ),
        AgentError::StorageDuringClose { cleanup_result, .. } => match *cleanup_result {
            Err(x) => measure(x),
            Ok(_) => nothing(),
        },
        AgentError::StorageInitialization { cleanup_result, .. } => match *cleanup_result {
            Err(x) => measure(x),
            Ok(_) => nothing(),
        },
        AgentError::StorageAfterExecution { execution_result, .. } => match *execution_result {
            Err(x) => measure(x),
            Ok(_) => nothing(),
        },
        AgentError::AfterInvocationHooks { execution_result, .. } => match *execution_result {
            Err(x) => measure(x),
            Ok(_) => nothing(),
        },
        AgentError::PermissionAnswerDeliveryAndAuditFailure { delivery_error, cleanup_error } => join(
            measure(*delivery_error),
            match cleanup_error {
                Some(x) => measure(*x),
                None => nothing(),
            },
        ),
        _ => nothing(),
    };
    TreeMeasure {
        nodes: own_nodes(e) + below.nodes,
        bytes: own_bytes(e) + below.bytes,
        height: 1 + below.height,
    }
}

/// Whether the tree rooted at `e` fits the retention bounds.
pub open spec fn fits(e: AgentError) -> bool {
    let m = measure(e);
    m.nodes <= MAX_ERROR_NODES && m.bytes <= MAX_ERROR_BYTES && m.height <= MAX_ERROR_DEPTH
}

/// An error paired with its depth, as the bound check holds it.
pub type Pending = (AgentError, usize);

/// Nodes still to be counted.
pub open spec fn pending_nodes() -> spec_fn(Pending) -> int {
    |p: Pending| measure(p.0).nodes
}

/// Bytes still to be counted.
pub open spec fn pending_bytes() -> spec_fn(Pending) -> int {
    |p: Pending| measure(p.0).bytes
}

/// Whether an error at depth `p.1` keeps its subtree within the depth bound.
pub open spec fn within_depth(p: Pending) -> bool {
    p.1 + measure(p.0).height - 1 <= MAX_ERROR_DEPTH
}

proof fn lemma_measure_positive(e: AgentError)
    ensures
        measure(e).nodes >= own_nodes(e) >= 1,
        measure(e).bytes >= own_bytes(e) >= 0,
        measure(e).height >= 1,
    decreases e,
{
    match e {
        AgentError::ExecutionObservation { error, execution_result } => {
            lemma_measure_positive(*error);
            match execution_result {
                Some(r) => match *r {
                    Err(x) => lemma_measure_positive(x),
                    Ok(_) => {},
                },
                None => {},
            }
        },
        AgentError::MultipleOperationFailures { first_error, subsequent_error } => {
            lemma_measure_positive(*first_error);
            lemma_measure_positive(*subsequent_error);
        },
        AgentError::OperationAndCleanupFailure { operation_error, cleanup_error } => {
            lemma_measure_positive(*operation_error);
            lemma_measure_positive(*cleanup_error);
        },
        AgentError::StorageDuringClose { cleanup_result, .. } => match *cleanup_result {
            Err(x) => lemma_measure_positive(x),
            Ok(_) => {},
        },
        AgentError::StorageInitialization { cleanup_result, .. } => match *cleanup_result {
            Err(x) => lemma_measure_positive(x),
            Ok(_) => {},
        },
        AgentError::StorageAfterExecution { execution_result, .. } => match *execution_result {
            Err(x) => lemma_measure_positive(x),
            Ok(_) => {},
        },
        AgentError::AfterInvocationHooks { failures, execution_result } => {
            lemma_hooks_text_nonneg(failures@);
            match *execution_result {
                Err(x) => lemma_measure_positive(x),
                Ok(_) => {},
            }
        },
        AgentError::PermissionAnswerDeliveryAndAuditFailure { delivery_error, cleanup_error } => {
            lemma_measure_positive(*delivery_error);
            match cleanup_error {
                Some(x) => lemma_measure_positive(*x),
                None => {},
            }
        },
        _ => {},
    }
    match e {
        AgentError::AfterInvocationHooks { failures, .. } => lemma_hooks_text_nonneg(failures@),
        _ => {},
    }
}

proof fn lemma_hooks_text_nonneg(s: Seq<HookFailure>)
    ensures
        hooks_text(s) >= 0,
    decreases s.len(),
{
    if s.len() > 0 {
        lemma_hooks_text_nonneg(s.drop_last());
    }
}

/// The errors and depths a stack of borrowed pending entries holds.
pub open spec fn deref_all(s: Seq<(&AgentError, usize)>) -> Seq<Pending> {
    s.map_values(|p: (&AgentError, usize)| (*p.0, p.1))
}

proof fn lemma_deref_push(s: Seq<(&AgentError, usize)>, x: (&AgentError, usize))
    ensures
        deref_all(s.push(x)) == deref_all(s).push((*x.0, x.1)),
{
    assert(deref_all(s.push(x)) =~= deref_all(s).push((*x.0, x.1)));
}

proof fn lemma_pending_nonneg(s: Seq<Pending>)
    ensures
        seq_sum(s, pending_nodes()) >= 0,
        seq_sum(s, pending_bytes()) >= 0,
{
    assert forall|i: int| 0 <= i < s.len() implies pending_nodes()(#[trigger] s[i]) >= 0 by {
        lemma_measure_positive(s[i].0);
    }
    assert forall|i: int| 0 <= i < s.len() implies pending_bytes()(#[trigger] s[i]) >= 0 by {
        lemma_measure_positive(s[i].0);
    }
    crate::sums::lemma_sum_bounds(s, pending_nodes());
    crate::sums::lemma_sum_bounds(s, pending_bytes());
}

/// Pushes `child` at `depth` onto the pending stack.
fn push_child<'a>(pending: &mut Vec<(&'a AgentError, usize)>, child: &'a AgentError, depth: usize)
    ensures
        final(pending)@ == old(pending)@.push((child, depth)),
        deref_all(final(pending)@) == deref_all(old(pending)@).push((*child, depth)),
        seq_sum(deref_all(final(pending)@), pending_nodes()) == seq_sum(deref_all(old(pending)@), pending_nodes())
            + measure(*child).nodes,
        seq_sum(deref_all(final(pending)@), pending_bytes()) == seq_sum(deref_all(old(pending)@), pending_bytes())
            + measure(*child).bytes,
{
    proof {
        lemma_deref_push(old(pending)@, (child, depth));
        lemma_sum_push(deref_all(old(pending)@), pending_nodes(), (*child, depth));
        lemma_sum_push(deref_all(old(pending)@), pending_bytes(), (*child, depth));
    }
    pending.push((child, depth));
}

/// Pushes the direct sub-errors of `error` at `depth`, one below the error itself.
fn children<'a>(error: &'a AgentError, depth: usize, pending: &mut Vec<(&'a AgentError, usize)>)
    requires
        1 <= depth <= MAX_ERROR_DEPTH + 1,
    ensures
        final(pending)@.len() >= old(pending)@.len(),
        forall|i: int| 0 <= i < old(pending)@.len() ==> #[trigger] final(pending)@[i] == old(pending)@[i],
        forall|i: int| old(pending)@.len() <= i < final(pending)@.len() ==> #[trigger] final(pending)@[i].1 == depth,
        seq_sum(deref_all(final(pending)@), pending_nodes()) == seq_sum(deref_all(old(pending)@), pending_nodes())
            + measure(*error).nodes - own_nodes(*error),
        seq_sum(deref_all(final(pending)@), pending_bytes()) == seq_sum(deref_all(old(pending)@), pending_bytes())
            + measure(*error).bytes - own_bytes(*error),
        deref_all(final(pending)@) == deref_all(old(pending)@) + Seq::new(
            children_of(*error).len(),
            |k: int| (children_of(*error)[k], depth),
        ),
{
    let ghost start = old(pending)@;
    match error {
        AgentError::ExecutionObservation { error: first, execution_result } => {
            push_child(pending, &**first, depth);
            match execution_result {
                Some(result) => match &**result {
                    Err(e) => push_child(pending, e, depth),
                    Ok(_) => {},
                },
                None => {},
            }
        },
        AgentError::MultipleOperationFailures { first_error, subsequent_error } => {
            push_child(pending, &**first_error, depth);
            push_child(pending, &**subsequent_error, depth);
        },
        AgentError::OperationAndCleanupFailure { operation_error, cleanup_error } => {
            push_child(pending, &**operation_error, depth);
            push_child(pending, &**cleanup_error, depth);
        },
        AgentError::StorageDuringClose { cleanup_result, .. } => match &**cleanup_result {
            Err(e) => push_child(pending, e, depth),
            Ok(_) => {},
        },
        AgentError::StorageInitialization { cleanup_result, .. } => match &**cleanup_result {
            Err(e) => push_child(pending, e, depth),
            Ok(_) => {},
        },
        AgentError::StorageAfterExecution { execution_result, .. } => match &**execution_result {
            Err(e) => push_child(pending, e, depth),
            Ok(_) => {},
        },
        AgentError::AfterInvocationHooks { execution_result, .. } => match &**execution_result {
            Err(e) => push_child(pending, e, depth),
            Ok(_) => {},
        },
        AgentError::PermissionAnswerDeliveryAndAuditFailure { delivery_error, cleanup_error } => {
            push_child(pending, &**delivery_error, depth);
            match cleanup_error {
                Some(e) => push_child(pending, &**e, depth),
                None => {},
            }
        },
        _ => {},
    }
    proof {
        assert(deref_all(pending@) =~= deref_all(start) + Seq::new(
            children_of(*error).len(),
            |k: int| (children_of(*error)[k], depth),
        ));
        assert forall|i: int| start.len() <= i < pending@.len() implies #[trigger] pending@[i].1 == depth by {
            assert(deref_all(pending@)[i].1 == pending@[i].1);
        }
    }
}

/// The subtree of `e` at depth `depth - 1` stays within the depth bound exactly when
/// each of its sub-errors does at `depth`.
proof fn lemma_children_depth(e: AgentError, depth: int)
    requires
        1 <= depth <= MAX_ERROR_DEPTH + 1,
    ensures
        (forall|k: int|
            0 <= k < children_of(e).len() ==> depth + measure(#[trigger] children_of(e)[k]).height - 1
                <= MAX_ERROR_DEPTH) <==> depth + measure(e).height - 2 <= MAX_ERROR_DEPTH,
{
    let cs = children_of(e);
    assert forall|k: int| 0 <= k < cs.len() implies measure(#[trigger] cs[k]).height >= 1 by {
        lemma_measure_positive(cs[k]);
    }
    if cs.len() == 1 {
        assert(depth + measure(cs[0]).height - 1 <= MAX_ERROR_DEPTH ==> forall|k: int|
            0 <= k < cs.len() ==> depth + measure(#[trigger] cs[k]).height - 1 <= MAX_ERROR_DEPTH);
    } else if cs.len() == 2 {
        assert(depth + measure(cs[0]).height - 1 <= MAX_ERROR_DEPTH && depth + measure(cs[1]).height - 1
            <= MAX_ERROR_DEPTH ==> forall|k: int|
            0 <= k < cs.len() ==> depth + measure(#[trigger] cs[k]).height - 1 <= MAX_ERROR_DEPTH);
    }
}

fn limit_error() -> (r: StorageError)
    ensures
        r matches StorageError::Corrupt(t) && t@ == "retained error exceeds 1 MiB, 128 nodes, or depth 32"@,
{
    StorageError::Corrupt("retained error exceeds 1 MiB, 128 nodes, or depth 32".to_owned())
}

/// `String::capacity`: the bytes `text` can hold without reallocating. std
/// documents it as never below the length; how much more the allocator handed
/// out is left unsaid, and so is it here.
#[verifier::external_body]
fn text_capacity(text: &String) -> (r: usize)
    ensures
        r >= blen(text@),
{
    text.capacity()
}

/// `Vec::capacity`: the hook failures `failures` can hold without reallocating.
/// std documents it as never below the length; nothing more is stated.
#[verifier::external_body]
fn hook_list_capacity(failures: &Vec<HookFailure>) -> (r: usize)
    ensures
        r >= failures@.len(),
{
    failures.capacity()
}

/// `String::shrink_to_fit`: gives spare allocation back. std documents that it
/// shrinks the capacity towards the length; the text is unchanged. What capacity
/// remains is left unsaid.
#[verifier::external_body]
fn release_spare(text: &mut String)
    ensures
        final(text)@ == old(text)@,
{
    text.shrink_to_fit()
}

/// Diagnostic bytes a storage failure holds, by length.
fn storage_len(error: &StorageError) -> (r: usize)
    ensures
        r == storage_text(*error),
{
    match error {
        StorageError::Io(text) | StorageError::Corrupt(text) => crate::text::text_len(text),
        _ => 0,
    }
}

/// Diagnostic bytes a hook failure holds, by length.
fn hook_len(failure: &HookFailure) -> (r: usize)
    ensures
        r == hook_text(*failure),
{
    match &failure.error {
        HookError::Failed(text) => crate::text::text_len(text),
        HookError::Panicked => 0,
    }
}

/// Allocation `text` holds beyond its length.
fn text_spare(text: &String) -> usize {
    text_capacity(text) - crate::text::text_len(text)
}

/// Allocation a storage failure's diagnostic holds beyond its length.
fn storage_spare(error: &StorageError) -> (r: usize)
    ensures
        storage_text_free(*error) ==> r == 0,
{
    match error {
        StorageError::Io(text) | StorageError::Corrupt(text) => text_spare(text),
        _ => 0,
    }
}

/// Allocation a hook failure's diagnostic holds beyond its length.
fn hook_spare(failure: &HookFailure) -> (r: usize)
    ensures
        failure.error is Panicked ==> r == 0,
{
    match &failure.error {
        HookError::Failed(text) => text_spare(text),
        HookError::Panicked => 0,
    }
}

/// Allocation a hook failure list holds beyond its length: its spare slots at a
/// failure's slot size, and each failure's spare diagnostic allocation.
fn hooks_spare(failures: &Vec<HookFailure>) -> usize {
    let slot_size = core::mem::size_of::<HookFailure>();
    let count = hook_list_capacity(failures) - failures.len();
    assert(count as int * slot_size as int <= usize::MAX as int * usize::MAX as int) by (nonlinear_arith)
        requires
            count <= usize::MAX,
            slot_size <= usize::MAX,
    ;
    assert(usize::MAX as int * usize::MAX as int <= u128::MAX) by (nonlinear_arith);
    let mut total = crate::text::clamp(count as u128 * slot_size as u128);
    let mut i: usize = 0;
    while i < failures.len()
        invariant
            i <= failures.len(),
        decreases failures.len() - i,
    {
        total = total.saturating_add(hook_spare(&failures[i]));
        i = i + 1;
    }
    total
}

proof fn lemma_hooks_prefix(s: Seq<HookFailure>, i: int)
    requires
        0 <= i <= s.len(),
    ensures
        0 <= hooks_text(s.take(i)) <= hooks_text(s),
    decreases s.len(),
{
    lemma_hooks_text_nonneg(s.take(i));
    if i < s.len() {
        lemma_hooks_prefix(s.drop_last(), i);
        assert(s.drop_last().take(i) == s.take(i));
        assert(hook_text(s.last()) >= 0);
    } else {
        assert(s.take(i) == s);
    }
}

/// Whether `e` itself owns no buffer whose allocation the check reads: no text,
/// no storage or hook diagnostic, and no hook failure list.
pub open spec fn owns_no_buffer(e: AgentError) -> bool {
    match e {
        AgentError::Configuration(_)
        | AgentError::Unsupported(_)
        | AgentError::InvalidInput(_)
        | AgentError::Protocol(_)
        | AgentError::Transport(_)
        | AgentError::AfterInvocationHooks { .. } => false,
        AgentError::Storage(s) => storage_text_free(s),
        AgentError::StorageDuringClose { error, .. } => storage_text_free(error),
        AgentError::StorageInitialization { error, .. } => storage_text_free(error),
        AgentError::StorageAfterExecution { error, .. } => storage_text_free(error),
        AgentError::BeforeInvocationHook(f) => f.error is Panicked,
        _ => true,
    }
}

/// Whether a storage failure carries no diagnostic text.
pub open spec fn storage_text_free(e: StorageError) -> bool {
    e is Busy || e is IdentityMismatch
}

/// Whether no error of the tree rooted at `e` owns a buffer: then the retention
/// check reads no allocation, and its verdict is a function of the value alone.
pub open spec fn no_owned_buffers(e: AgentError) -> bool
    decreases e,
{
    owns_no_buffer(e) && match e {
        AgentError::ExecutionObservation { error, execution_result } => no_owned_buffers(*error) && match execution_result {
            Some(r) => match *r {
                Err(x) => no_owned_buffers(x),
                Ok(_) => true,
            },
            None => true,
        },
        AgentError::MultipleOperationFailures { first_error, subsequent_error } => no_owned_buffers(*first_error)
            && no_owned_buffers(*subsequent_error),
        AgentError::OperationAndCleanupFailure { operation_error, cleanup_error } => no_owned_buffers(
            *operation_error,
        ) && no_owned_buffers(*cleanup_error),
        AgentError::StorageDuringClose { cleanup_result, .. } => match *cleanup_result {
            Err(x) => no_owned_buffers(x),
            Ok(_) => true,
        },
        AgentError::StorageInitialization { cleanup_result, .. } => match *cleanup_result {
            Err(x) => no_owned_buffers(x),
            Ok(_) => true,
        },
        AgentError::StorageAfterExecution { execution_result, .. } => match *execution_result {
            Err(x) => no_owned_buffers(x),
            Ok(_) => true,
        },
        AgentError::PermissionAnswerDeliveryAndAuditFailure { delivery_error, cleanup_error } => no_owned_buffers(
            *delivery_error,
        ) && match cleanup_error {
            Some(x) => no_owned_buffers(*x),
            None => true,
        },
        _ => true,
    }
}

proof fn lemma_children_own_no_buffers(e: AgentError)
    requires
        no_owned_buffers(e),
    ensures
        forall|k: int| 0 <= k < children_of(e).len() ==> no_owned_buffers(#[trigger] children_of(e)[k]),
{
    let cs = children_of(e);
    assert forall|k: int| 0 <= k < cs.len() implies no_owned_buffers(#[trigger] cs[k]) by {
        match e {
            AgentError::ExecutionObservation { error, execution_result } => {
                if k == 1 {
                    assert(cs[1] == (*execution_result->0)->Err_0);
                }
            },
            AgentError::PermissionAnswerDeliveryAndAuditFailure { delivery_error, cleanup_error } => {
                if k == 1 {
                    assert(cs[1] == *cleanup_error->0);
                }
            },
            _ => {},
        }
    }
}

/// Whether the tree rooted at `e` passes the retention check when its buffers
/// hold `spare` bytes of allocation beyond what [`measure`] charges for their
/// lengths (a hook list's spare slots at a failure's slot size): at most 128
/// nodes, depth 32, and 1 MiB charged, each error its slot and each buffer its
/// whole allocation.
pub open spec fn retained_within(e: AgentError, spare: int) -> bool {
    let m = measure(e);
    m.nodes <= MAX_ERROR_NODES && m.height <= MAX_ERROR_DEPTH && m.bytes + spare <= MAX_ERROR_BYTES
}

/// Whether `r` is the retention verdict on `e` for a spare allocation `spare`
/// that its buffers can hold: none when the tree owns no buffer.
pub open spec fn retention_verdict(e: AgentError, r: Result<(), StorageError>, spare: int) -> bool {
    &&& spare >= 0
    &&& no_owned_buffers(e) ==> spare == 0
    &&& r is Ok <==> retained_within(e, spare)
}

/// Whether `e` is the failure the retention check reports.
pub open spec fn is_limit_error(e: StorageError) -> bool {
    e matches StorageError::Corrupt(t) && t@ == "retained error exceeds 1 MiB, 128 nodes, or depth 32"@
}

impl AgentError {
    /// The retention verdict on this error tree when its buffers hold `spare` bytes
    /// of allocation beyond their lengths: `Ok` exactly when the tree has at most 128
    /// nodes (hook failures included) and 32 levels and its slots, buffer lengths and
    /// `spare` come to at most 1 MiB; otherwise the Corrupt storage failure of the
    /// check. The walk borrows the tree and stops at the first bound crossed.
    pub fn validate_with_spare(&self, spare: usize) -> (r: Result<(), StorageError>)
        ensures
            r is Ok <==> retained_within(*self, spare as int),
            r matches Err(e) ==> is_limit_error(e),
    {
        proof {
            lemma_measure_positive(*self);
        }
        if spare > MAX_ERROR_BYTES {
            return Err(limit_error());
        }
        let mut pending: Vec<(&AgentError, usize)> = Vec::new();
        pending.push((self, 1));
        let ghost root = measure(*self);
        proof {
            assert(deref_all(pending@) =~= Seq::<Pending>::empty().push((*self, 1usize)));
            lemma_sum_push(Seq::<Pending>::empty(), pending_nodes(), (*self, 1usize));
            lemma_sum_push(Seq::<Pending>::empty(), pending_bytes(), (*self, 1usize));
        }
        let mut bytes: usize = spare;
        let mut nodes: usize = 0;
        let ghost mut lens: int = 0;
        while pending.len() > 0
            invariant
                nodes <= MAX_ERROR_NODES,
                bytes <= MAX_ERROR_BYTES,
                bytes == lens + spare,
                0 <= lens,
                root == measure(*self),
                root.nodes == nodes + seq_sum(deref_all(pending@), pending_nodes()),
                root.bytes == lens + seq_sum(deref_all(pending@), pending_bytes()),
                (root.height <= MAX_ERROR_DEPTH) <==> (forall|i: int|
                    0 <= i < pending@.len() ==> within_depth(#[trigger] deref_all(pending@)[i])),
                forall|i: int| 0 <= i < pending@.len() ==> 1 <= #[trigger] pending@[i].1 <= MAX_ERROR_DEPTH + 1,
            decreases MAX_ERROR_NODES - nodes,
        {
            let ghost orig = pending@;
            let ghost before = deref_all(pending@);
            let ghost nodes0 = nodes;
            let ghost lens0 = lens;
            let (error, depth) = pending.pop().unwrap();
            let ghost popped = pending@;
            let ghost rest = deref_all(pending@);
            let ghost e = *error;
            proof {
                assert(popped == orig.drop_last());
                assert(rest =~= before.drop_last());
                assert(before[before.len() - 1] == (e, depth));
                lemma_pending_nonneg(rest);
                lemma_measure_positive(e);
                assert(within_depth(before[before.len() - 1]) == within_depth((e, depth)));
                assert(1 <= orig[orig.len() - 1].1 <= MAX_ERROR_DEPTH + 1);
                lemma_sum_push(rest, pending_nodes(), (e, depth));
                lemma_sum_push(rest, pending_bytes(), (e, depth));
                assert(rest.push((e, depth)) == before);
            }
            nodes = nodes + 1;
            bytes = bytes.saturating_add(core::mem::size_of::<AgentError>());
            let ghost mut l: int = lens0 + size_of::<AgentError>();
            if nodes > MAX_ERROR_NODES || depth > MAX_ERROR_DEPTH {
                proof {
                    if depth > MAX_ERROR_DEPTH {
                        assert(!within_depth(before[before.len() - 1]));
                    }
                    assert(!retained_within(*self, spare as int));
                }
                return Err(limit_error());
            }
            match error {
                AgentError::Configuration(text)
                | AgentError::Unsupported(text)
                | AgentError::InvalidInput(text)
                | AgentError::Protocol(text)
                | AgentError::Transport(text) => {
                    let n = crate::text::text_len(text);
                    proof {
                        crate::text::lemma_sat_add(l + spare, n as int);
                        l = l + n;
                    }
                    bytes = bytes.saturating_add(n);
                },
                AgentError::Storage(se)
                | AgentError::StorageDuringClose { error: se, .. }
                | AgentError::StorageInitialization { error: se, .. }
                | AgentError::StorageAfterExecution { error: se, .. } => {
                    let n = storage_len(se);
                    proof {
                        crate::text::lemma_sat_add(l + spare, n as int);
                        l = l + n;
                    }
                    bytes = bytes.saturating_add(n);
                },
                AgentError::BeforeInvocationHook(failure) => {
                    let n = hook_len(failure);
                    proof {
                        crate::text::lemma_sat_add(l + spare, n as int);
                        l = l + n;
                    }
                    bytes = bytes.saturating_add(n);
                },
                AgentError::AfterInvocationHooks { failures, .. } => {
                    nodes = nodes.saturating_add(failures.len());
                    if nodes > MAX_ERROR_NODES {
                        proof {
                            assert(!retained_within(*self, spare as int));
                        }
                        return Err(limit_error());
                    }
                    let slot_size = core::mem::size_of::<HookFailure>();
                    let count = failures.len();
                    assert(count as int * slot_size as int <= usize::MAX as int * usize::MAX as int) by (nonlinear_arith)
                        requires
                            count <= usize::MAX,
                            slot_size <= usize::MAX,
                    ;
                    assert(usize::MAX as int * usize::MAX as int <= u128::MAX) by (nonlinear_arith);
                    assert(count as int * slot_size as int >= 0) by (nonlinear_arith)
                        requires
                            count >= 0,
                            slot_size >= 0,
                    ;
                    let slots = crate::text::clamp(count as u128 * slot_size as u128);
                    proof {
                        crate::text::lemma_sat_inner(bytes as int, count * slot_size);
                        crate::text::lemma_sat_add(l + spare, count * slot_size);
                        l = l + count * slot_size;
                    }
                    bytes = bytes.saturating_add(slots);
                    let ghost l0 = l;
                    let mut i: usize = 0;
                    proof {
                        assert(failures@.take(0) =~= Seq::<HookFailure>::empty());
                    }
                    #[verifier::loop_isolation(false)]
                    while i < failures.len()
                        invariant
                            i <= failures.len(),
                            l0 >= 0,
                            l == l0 + hooks_text(failures@.take(i as int)),
                            bytes == sat(l + spare),
                        decreases failures.len() - i,
                    {
                        let n = hook_len(&failures[i]);
                        proof {
                            assert(failures@.take(i + 1).drop_last() == failures@.take(i as int));
                            lemma_hooks_text_nonneg(failures@.take(i as int));
                            crate::text::lemma_sat_add(l + spare, n as int);
                            l = l + n;
                        }
                        bytes = bytes.saturating_add(n);
                        if bytes > MAX_ERROR_BYTES {
                            proof {
                                lemma_hooks_prefix(failures@, i + 1);
                                assert(!retained_within(*self, spare as int));
                            }
                            return Err(limit_error());
                        }
                        i = i + 1;
                    }
                    proof {
                        assert(failures@.take(failures.len() as int) == failures@);
                    }
                },
                _ => {},
            }
            proof {
                assert(l == lens0 + own_bytes(e));
                assert(bytes == sat(l + spare));
            }
            if bytes > MAX_ERROR_BYTES || nodes > MAX_ERROR_NODES {
                proof {
                    assert(!retained_within(*self, spare as int));
                }
                return Err(limit_error());
            }
            proof {
                assert(nodes == nodes0 + own_nodes(e));
                lens = l;
            }
            children(error, depth + 1, &mut pending);
            proof {
                lemma_children_depth(e, depth + 1);
                let after = deref_all(pending@);
                let kids = Seq::new(children_of(e).len(), |k: int| (children_of(e)[k], (depth + 1) as usize));
                assert(after == rest + kids);
                assert forall|i: int| 0 <= i < pending@.len() implies 1 <= #[trigger] pending@[i].1 <= MAX_ERROR_DEPTH + 1 by {
                    if i < popped.len() {
                        assert(pending@[i] == popped[i]);
                        assert(popped[i] == orig[i]);
                    }
                }
                assert((forall|i: int| 0 <= i < after.len() ==> within_depth(#[trigger] after[i])) <==> (forall|i: int|
                    0 <= i < before.len() ==> within_depth(#[trigger] before[i]))) by {
                    if forall|i: int| 0 <= i < after.len() ==> within_depth(#[trigger] after[i]) {
                        assert forall|k: int| 0 <= k < children_of(e).len() implies depth + 1 + measure(
                            #[trigger] children_of(e)[k],
                        ).height - 1 <= MAX_ERROR_DEPTH by {
                            assert(after[rest.len() + k] == kids[k]);
                        }
                        assert forall|i: int| 0 <= i < before.len() implies within_depth(#[trigger] before[i]) by {
                            if i < rest.len() {
                                assert(after[i] == rest[i]);
                            }
                        }
                    }
                    if forall|i: int| 0 <= i < before.len() ==> within_depth(#[trigger] before[i]) {
                        assert(within_depth(before[before.len() - 1]));
                        assert forall|i: int| 0 <= i < after.len() implies within_depth(#[trigger] after[i]) by {
                            if i < rest.len() {
                                assert(after[i] == rest[i]);
                                assert(before[i] == rest[i]);
                            } else {
                                assert(after[i] == kids[i - rest.len()]);
                            }
                        }
                    }
                }
            }
        }
        Ok(())
    }

    /// Reads from the allocator how much this error tree's buffers hold beyond their
    /// lengths: each text's capacity less its length, and a hook list's spare slots
    /// at a failure's slot size. The walk stops with what it has read once the node
    /// or depth bound is crossed or the spare alone passes 1 MiB, since the verdict
    /// is then a refusal whatever the rest holds. A tree that owns no buffer reads
    /// nothing.
    fn spare_allocation(&self) -> (s: usize)
        ensures
            no_owned_buffers(*self) ==> s == 0,
    {
        let mut pending: Vec<(&AgentError, usize)> = Vec::new();
        pending.push((self, 1));
        proof {
            assert(deref_all(pending@) =~= Seq::<Pending>::empty().push((*self, 1usize)));
        }
        let mut nodes: usize = 0;
        let mut spare: usize = 0;
        while pending.len() > 0
            invariant
                nodes <= MAX_ERROR_NODES,
                forall|i: int| 0 <= i < pending@.len() ==> 1 <= #[trigger] pending@[i].1 <= MAX_ERROR_DEPTH + 1,
                no_owned_buffers(*self) ==> spare == 0 && forall|i: int|
                    0 <= i < pending@.len() ==> no_owned_buffers(#[trigger] deref_all(pending@)[i].0),
            decreases MAX_ERROR_NODES - nodes,
        {
            let ghost orig = pending@;
            let ghost before = deref_all(pending@);
            let (error, depth) = pending.pop().unwrap();
            let ghost popped = pending@;
            let ghost rest = deref_all(pending@);
            let ghost e = *error;
            proof {
                assert(popped == orig.drop_last());
                assert(rest =~= before.drop_last());
                assert(before[before.len() - 1] == (e, depth));
                assert(1 <= orig[orig.len() - 1].1 <= MAX_ERROR_DEPTH + 1);
                if no_owned_buffers(*self) {
                    assert(no_owned_buffers(before[before.len() - 1].0));
                }
            }
            nodes = nodes + 1;
            if nodes > MAX_ERROR_NODES || depth > MAX_ERROR_DEPTH {
                return spare;
            }
            let own: usize = match error {
                AgentError::Configuration(text)
                | AgentError::Unsupported(text)
                | AgentError::InvalidInput(text)
                | AgentError::Protocol(text)
                | AgentError::Transport(text) => text_spare(text),
                AgentError::Storage(se)
                | AgentError::StorageDuringClose { error: se, .. }
                | AgentError::StorageInitialization { error: se, .. }
                | AgentError::StorageAfterExecution { error: se, .. } => storage_spare(se),
                AgentError::BeforeInvocationHook(failure) => hook_spare(failure),
                AgentError::AfterInvocationHooks { failures, .. } => {
                    nodes = nodes.saturating_add(failures.len());
                    if nodes > MAX_ERROR_NODES {
                        return spare;
                    }
                    hooks_spare(failures)
                },
                _ => 0,
            };
            spare = spare.saturating_add(own);
            if spare > MAX_ERROR_BYTES {
                return spare;
            }
            children(error, depth + 1, &mut pending);
            proof {
                if no_owned_buffers(*self) {
                    lemma_children_own_no_buffers(e);
                }
                let after = deref_all(pending@);
                let kids = Seq::new(children_of(e).len(), |k: int| (children_of(e)[k], (depth + 1) as usize));
                assert(after == rest + kids);
                assert forall|i: int| 0 <= i < pending@.len() implies 1 <= #[trigger] pending@[i].1 <= MAX_ERROR_DEPTH + 1 by {
                    if i < popped.len() {
                        assert(pending@[i] == popped[i]);
                        assert(popped[i] == orig[i]);
                    }
                }
                if no_owned_buffers(*self) {
                    assert forall|i: int| 0 <= i < pending@.len() implies no_owned_buffers(
                        #[trigger] deref_all(pending@)[i].0,
                    ) by {
                        if i < rest.len() {
                            assert(after[i] == rest[i]);
                            assert(before[i] == rest[i]);
                        } else {
                            assert(after[i] == kids[i - rest.len()]);
                        }
                    }
                }
            }
        }
        spare
    }

    /// Checks, without copying, that this error tree retains at most 1 MiB in at most
    /// 128 nodes (hook failures included) and 32 levels; otherwise a Corrupt storage
    /// failure. Bytes are charged as allocated, spare capacity included: each text
    /// by its capacity and a hook list by its capacity times a failure's slot. The
    /// spare allocation is read from the allocator and the verdict is
    /// [`AgentError::validate_with_spare`] on what was read; a tree that owns no
    /// buffer reads none, so it is accepted exactly when it fits. How much spare an
    /// allocator hands out is no function of the value and is not stated.
    pub fn validate_retained_size(&self) -> (r: Result<(), StorageError>)
        ensures
            exists|spare: int| #[trigger] retention_verdict(*self, r, spare),
            r is Ok ==> fits(*self),
            !fits(*self) ==> r is Err,
            no_owned_buffers(*self) ==> (r is Ok <==> fits(*self)),
            r matches Err(e) ==> is_limit_error(e),
    {
        let spare = self.spare_allocation();
        let r = self.validate_with_spare(spare);
        proof {
            assert(retention_verdict(*self, r, spare as int));
        }
        r
    }
}

/// Largest diagnostic text kept whole (4 KiB).
pub const DIAGNOSTIC_LIMIT: usize = 4096;

/// Bytes of a longer diagnostic kept before the truncation marker: the limit less
/// the marker's 23 bytes.
pub const DIAGNOSTIC_KEEP: usize = 4073;

/// The largest character boundary of `b` at or below `k`.
pub open spec fn boundary_at_most(b: Seq<u8>, k: int) -> int
    decreases k,
{
    if k <= 0 {
        0
    } else if is_char_boundary(b, k) {
        k
    } else {
        boundary_at_most(b, k - 1)
    }
}

/// A diagnostic over 4 KiB cut at the last character boundary that leaves room for
/// the truncation marker, then marked; a shorter one unchanged.
pub open spec fn compacted(t: Seq<char>) -> Seq<char> {
    let b = encode_utf8(t);
    if blen(t) > DIAGNOSTIC_LIMIT {
        decode_utf8(b.subrange(0, boundary_at_most(b, DIAGNOSTIC_KEEP as int))) + " [diagnostic truncated]"@
    } else {
        t
    }
}

/// Cuts a diagnostic to at most 4 KiB at a character boundary, marking the cut,
/// and gives its spare allocation back.
pub fn compact_diagnostic(text: String) -> (r: String)
    ensures
        r@ == compacted(text@),
{
    if crate::text::text_len(&text) > DIAGNOSTIC_LIMIT {
        let s = text.as_str();
        let ghost b = encode_utf8(text@);
        proof {
            vstd::utf8::encode_utf8_valid_utf8(text@);
            vstd::utf8::is_char_boundary_start_end_of_seq(b);
            assert(encode_utf8(s@) == b);
        }
        let mut end: usize = DIAGNOSTIC_KEEP;
        while !s.is_char_boundary(end)
            invariant
                end <= DIAGNOSTIC_KEEP,
                encode_utf8(s@) == b,
                is_char_boundary(b, 0),
                boundary_at_most(b, end as int) == boundary_at_most(b, DIAGNOSTIC_KEEP as int),
            decreases end,
        {
            end = end - 1;
        }
        proof {
            if end as int > b.len() {
                assert(!is_char_boundary(b, end as int));
            }
        }
        let (head, _) = s.split_at(end);
        proof {
            vstd::utf8::encode_utf8_decode_utf8(head@);
        }
        let kept = head.to_owned();
        let mut cut = kept.concat(" [diagnostic truncated]");
        release_spare(&mut cut);
        return cut;
    }
    let mut text = text;
    release_spare(&mut text);
    text
}

/// Whether `after` is `before` cut down: a text failure with its diagnostic
/// compacted, any other error replaced by [`AgentError::DiagnosticLimit`].
pub open spec fn cut_down_as(before: AgentError, after: AgentError) -> bool {
    match before {
        AgentError::Configuration(t) => after matches AgentError::Configuration(u) && u@ == compacted(t@),
        AgentError::Unsupported(t) => after matches AgentError::Unsupported(u) && u@ == compacted(t@),
        AgentError::InvalidInput(t) => after matches AgentError::InvalidInput(u) && u@ == compacted(t@),
        AgentError::Protocol(t) => after matches AgentError::Protocol(u) && u@ == compacted(t@),
        AgentError::Transport(t) => after matches AgentError::Transport(u) && u@ == compacted(t@),
        _ => after is DiagnosticLimit,
    }
}

/// Whether `after` is what bounding `before` leaves for a spare allocation `spare`:
/// `before` itself when the retention verdict for `spare` accepts it, else
/// `before` cut down.
pub open spec fn bounding_result(before: AgentError, after: AgentError, spare: int) -> bool {
    if retained_within(before, spare) {
        after == before
    } else {
        cut_down_as(before, after)
    }
}

/// Whether `after` is what bounding `before` leaves when the retention check read
/// `spare` bytes of spare allocation, a spare its buffers can hold.
pub open spec fn bounding_verdict(before: AgentError, after: AgentError, spare: int) -> bool {
    &&& spare >= 0
    &&& no_owned_buffers(before) ==> spare == 0
    &&& bounding_result(before, after, spare)
}

/// Whether `after` is what bounding `before` leaves, for the spare allocation its
/// retention check read; see [`bounding_verdict`]. A tree that owns no buffer is
/// kept exactly when it fits; one that does not fit is always cut down; one that
/// fits by length but owns buffers is kept unless its spare allocation pushed it
/// over, which the allocator decides.
pub open spec fn bounded_as(before: AgentError, after: AgentError) -> bool {
    exists|spare: int| #[trigger] bounding_verdict(before, after, spare)
}

/// Total nodes of a list of error trees.
pub open spec fn forest_nodes(s: Seq<AgentError>) -> int
    decreases s.len(),
{
    if s.len() == 0 {
        0
    } else {
        forest_nodes(s.drop_last()) + measure(s.last()).nodes
    }
}

proof fn lemma_forest_push(s: Seq<AgentError>, e: AgentError)
    ensures
        forest_nodes(s.push(e)) == forest_nodes(s) + measure(e).nodes,
{
    assert(s.push(e).drop_last() == s);
}

proof fn lemma_forest_nonneg(s: Seq<AgentError>)
    ensures
        forest_nodes(s) >= 0,
    decreases s.len(),
{
    if s.len() > 0 {
        lemma_forest_nonneg(s.drop_last());
        lemma_measure_positive(s.last());
    }
}

impl AgentError {
    /// Normalizes this error for a given spare allocation: kept when
    /// [`AgentError::validate_with_spare`] accepts it for `spare`; otherwise an
    /// oversized text failure keeps its variant with a compacted diagnostic and
    /// anything else becomes [`AgentError::DiagnosticLimit`].
    pub fn bounded_with_spare(self, spare: usize) -> (r: Self)
        ensures
            bounding_result(self, r, spare as int),
    {
        if self.validate_with_spare(spare).is_ok() {
            return self;
        }
        let ghost before = self;
        let r = match self {
            AgentError::Configuration(text) => AgentError::Configuration(compact_diagnostic(text)),
            AgentError::Unsupported(text) => AgentError::Unsupported(compact_diagnostic(text)),
            AgentError::InvalidInput(text) => AgentError::InvalidInput(compact_diagnostic(text)),
            AgentError::Protocol(text) => AgentError::Protocol(compact_diagnostic(text)),
            AgentError::Transport(text) => AgentError::Transport(compact_diagnostic(text)),
            other => {
                other.discard_iteratively();
                AgentError::DiagnosticLimit
            },
        };
        proof {
            assert(cut_down_as(before, r));
        }
        r
    }

    /// Normalizes this error at the adapter boundary: a tree within the retention
    /// bounds is kept; an oversized text failure keeps its variant with a compacted
    /// diagnostic; anything else becomes [`AgentError::DiagnosticLimit`]. It reads
    /// the tree's spare allocation and bounds it as
    /// [`AgentError::bounded_with_spare`] does for what was read.
    pub fn bounded(self) -> (r: Self)
        ensures
            bounded_as(self, r),
            no_owned_buffers(self) && fits(self) ==> r == self,
            !fits(self) ==> cut_down_as(self, r),
    {
        let spare = self.spare_allocation();
        let r = self.bounded_with_spare(spare);
        proof {
            assert(bounding_verdict(self, r, spare as int));
        }
        r
    }

    /// Disposes of an error tree one node at a time, without recursion.
    pub fn discard_iteratively(self) {
        let mut pending: Vec<AgentError> = Vec::new();
        proof {
            lemma_forest_push(pending@, self);
            lemma_measure_positive(self);
        }
        pending.push(self);
        while pending.len() > 0
            invariant
                forest_nodes(pending@) >= 0,
            decreases forest_nodes(pending@),
        {
            let ghost before = pending@;
            let error = pending.pop().unwrap();
            proof {
                assert(pending@ == before.drop_last());
                lemma_measure_positive(error);
                lemma_forest_nonneg(pending@);
            }
            match error {
                AgentError::ExecutionObservation { error, execution_result } => {
                    proof { lemma_forest_push(pending@, *error); }
                    pending.push(*error);
                    match execution_result {
                        Some(result) => match *result {
                            Err(e) => {
                                proof { lemma_forest_push(pending@, e); }
                                pending.push(e);
                            },
                            Ok(_) => {},
                        },
                        None => {},
                    }
                },
                AgentError::MultipleOperationFailures { first_error, subsequent_error } => {
                    proof { lemma_forest_push(pending@, *first_error); }
                    pending.push(*first_error);
                    proof { lemma_forest_push(pending@, *subsequent_error); }
                    pending.push(*subsequent_error);
                },
                AgentError::OperationAndCleanupFailure { operation_error, cleanup_error } => {
                    proof { lemma_forest_push(pending@, *operation_error); }
                    pending.push(*operation_error);
                    proof { lemma_forest_push(pending@, *cleanup_error); }
                    pending.push(*cleanup_error);
                },
                AgentError::StorageDuringClose { cleanup_result, .. }
                | AgentError::StorageInitialization { cleanup_result, .. } => match *cleanup_result {
                    Err(e) => {
                        proof { lemma_forest_push(pending@, e); }
                        pending.push(e);
                    },
                    Ok(_) => {},
                },
                AgentError::StorageAfterExecution { execution_result, .. }
                | AgentError::AfterInvocationHooks { execution_result, .. } => match *execution_result {
                    Err(e) => {
                        proof { lemma_forest_push(pending@, e); }
                        pending.push(e);
                    },
                    Ok(_) => {},
                },
                AgentError::PermissionAnswerDeliveryAndAuditFailure { delivery_error, cleanup_error } => {
                    proof { lemma_forest_push(pending@, *delivery_error); }
                    pending.push(*delivery_error);
                    match cleanup_error {
                        Some(e) => {
                            proof { lemma_forest_push(pending@, *e); }
                            pending.push(*e);
                        },
                        None => {},
                    }
                },
                _ => {},
            }
            proof {
                lemma_forest_nonneg(pending@);
            }
        }
    }
}

} // verus!
