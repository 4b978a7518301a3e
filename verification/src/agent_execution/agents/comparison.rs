//! Content equality and copies of agent failures, comparing text by its characters.
use super::error_limits::{hook_text, hooks_text, measure, own_bytes, own_nodes};
use super::attachment::AttachmentPhase;
use super::AgentError;
use crate::agent_execution::hooks::{HookError, HookFailure};
use crate::agent_execution::sessions::StorageError;
use crate::domain::executions::ExecutionOutcome;
use crate::agent_execution::providers::{CloseOutcome, ImageInputRefusal, UserImageError};
use crate::domain::scheduling::SchedulingError;
use vstd::prelude::*;

verus! {

/// What a storage failure says: its kind and its text.
pub enum StorageContent {
    /// Another writer holds the session.
    Busy,
    /// The medium failed.
    Io(Seq<char>),
    /// Saved evidence is inconsistent.
    Corrupt(Seq<char>),
    /// Saved evidence belongs to another session.
    IdentityMismatch,
}

/// What a hook failure says: the hook's position and its message, if any.
pub struct HookContent {
    /// Registration index.
    pub index: usize,
    /// Reported message; `None` for a panic.
    pub message: Option<Seq<char>>,
}

/// What a failure says, with text as characters: two failures with the same
/// content compare equal.
#[allow(inconsistent_fields)]
pub enum ErrorContent {
    /// [`AgentError::OutputRetentionLimit`].
    OutputRetentionLimit,
    /// [`AgentError::DiagnosticLimit`].
    DiagnosticLimit,
    /// [`AgentError::Configuration`].
    Configuration(Seq<char>),
    /// [`AgentError::SubmissionConflict`].
    SubmissionConflict,
    /// [`AgentError::SubmissionUnresolved`].
    SubmissionUnresolved,
    /// [`AgentError::ExecutionObservation`].
    ExecutionObservation(Box<ErrorContent>, Option<Box<Result<ExecutionOutcome, ErrorContent>>>),
    /// [`AgentError::MultipleOperationFailures`].
    MultipleOperationFailures(Box<ErrorContent>, Box<ErrorContent>),
    /// [`AgentError::OperationAndCleanupFailure`].
    OperationAndCleanupFailure(Box<ErrorContent>, Box<ErrorContent>),
    /// [`AgentError::Scheduling`].
    Scheduling(SchedulingError),
    /// [`AgentError::StorageDuringClose`].
    StorageDuringClose(StorageContent, Box<Result<CloseOutcome, ErrorContent>>),
    /// [`AgentError::Storage`].
    Storage(StorageContent),
    /// [`AgentError::StorageInitialization`].
    StorageInitialization(StorageContent, Box<Result<CloseOutcome, ErrorContent>>),
    /// [`AgentError::StorageAfterExecution`].
    StorageAfterExecution(StorageContent, Box<Result<ExecutionOutcome, ErrorContent>>),
    /// [`AgentError::Unsupported`].
    Unsupported(Seq<char>),
    /// [`AgentError::InvalidInput`].
    InvalidInput(Seq<char>),
    /// [`AgentError::UserImage`].
    UserImage(UserImageError),
    /// [`AgentError::ImageInputRefused`].
    ImageInputRefused(ImageInputRefusal),
    /// [`AgentError::MessageTooLarge`].
    MessageTooLarge(u64, u64),
    /// [`AgentError::Busy`].
    Busy,
    /// [`AgentError::Closed`].
    Closed,
    /// [`AgentError::StalePermission`].
    StalePermission,
    /// [`AgentError::Protocol`].
    Protocol(Seq<char>),
    /// [`AgentError::Provider`].
    Provider(i64),
    /// [`AgentError::Transport`].
    Transport(Seq<char>),
    /// [`AgentError::Deadline`].
    Deadline,
    /// [`AgentError::Backpressure`].
    Backpressure,
    /// [`AgentError::AttachmentAuthorizationStale`].
    AttachmentAuthorizationStale,
    /// [`AgentError::AttachmentUnavailable`].
    AttachmentUnavailable(AttachmentPhase),
    /// [`AgentError::CleanupUncertain`].
    CleanupUncertain,
    /// [`AgentError::AuditFailure`].
    AuditFailure,
    /// [`AgentError::AuditAndCleanupFailure`].
    AuditAndCleanupFailure,
    /// [`AgentError::PermissionAnswerDeliveryAndAuditFailure`].
    PermissionAnswerDeliveryAndAuditFailure(Box<ErrorContent>, Option<Box<ErrorContent>>),
    /// [`AgentError::BeforeInvocationHook`].
    BeforeInvocationHook(HookContent),
    /// [`AgentError::AfterInvocationHooks`].
    AfterInvocationHooks(Seq<HookContent>, Box<Result<ExecutionOutcome, ErrorContent>>),
}

/// What a storage failure says.
pub open spec fn storage_content(e: StorageError) -> StorageContent {
    match e {
        StorageError::Busy => StorageContent::Busy,
        StorageError::Io(t) => StorageContent::Io(t@),
        StorageError::Corrupt(t) => StorageContent::Corrupt(t@),
        StorageError::IdentityMismatch => StorageContent::IdentityMismatch,
    }
}

/// What a hook failure says.
pub open spec fn hook_content(f: HookFailure) -> HookContent {
    HookContent {
        index: f.index,
        message: match f.error {
            HookError::Failed(t) => Some(t@),
            HookError::Panicked => None,
        },
    }
}

/// What a failure says.
pub open spec fn content(e: AgentError) -> ErrorContent
    decreases e,
{
    match e {
        AgentError::OutputRetentionLimit => ErrorContent::OutputRetentionLimit,
        AgentError::DiagnosticLimit => ErrorContent::DiagnosticLimit,
        AgentError::Configuration(t) => ErrorContent::Configuration(t@),
        AgentError::SubmissionConflict => ErrorContent::SubmissionConflict,
        AgentError::SubmissionUnresolved => ErrorContent::SubmissionUnresolved,
        AgentError::ExecutionObservation { error, execution_result } => ErrorContent::ExecutionObservation(
            Box::new(content(*error)),
            match execution_result {
                Some(r) => Some(
                    Box::new(
                        match *r {
                            Ok(o) => Ok(o),
                            Err(x) => Err(content(x)),
                        },
                    ),
                ),
                None => None,
            },
        ),
        AgentError::MultipleOperationFailures { first_error, subsequent_error } => ErrorContent::MultipleOperationFailures(
            Box::new(content(*first_error)),
            Box::new(content(*subsequent_error)),
        ),
        AgentError::OperationAndCleanupFailure { operation_error, cleanup_error } => ErrorContent::OperationAndCleanupFailure(
            Box::new(content(*operation_error)),
            Box::new(content(*cleanup_error)),
        ),
        AgentError::Scheduling(x) => ErrorContent::Scheduling(x),
        AgentError::StorageDuringClose { error, cleanup_result } => ErrorContent::StorageDuringClose(
            storage_content(error),
            Box::new(
                match *cleanup_result {
                    Ok(o) => Ok(o),
                    Err(x) => Err(content(x)),
                },
            ),
        ),
        AgentError::Storage(x) => ErrorContent::Storage(storage_content(x)),
        AgentError::StorageInitialization { error, cleanup_result } => ErrorContent::StorageInitialization(
            storage_content(error),
            Box::new(
                match *cleanup_result {
                    Ok(o) => Ok(o),
                    Err(x) => Err(content(x)),
                },
            ),
        ),
        AgentError::StorageAfterExecution { error, execution_result } => ErrorContent::StorageAfterExecution(
            storage_content(error),
            Box::new(
                match *execution_result {
                    Ok(o) => Ok(o),
                    Err(x) => Err(content(x)),
                },
            ),
        ),
        AgentError::Unsupported(t) => ErrorContent::Unsupported(t@),
        AgentError::InvalidInput(t) => ErrorContent::InvalidInput(t@),
        AgentError::UserImage(x) => ErrorContent::UserImage(x),
        AgentError::ImageInputRefused(x) => ErrorContent::ImageInputRefused(x),
        AgentError::MessageTooLarge { encoded_bytes, max_bytes } => ErrorContent::MessageTooLarge(encoded_bytes, max_bytes),
        AgentError::Busy => ErrorContent::Busy,
        AgentError::Closed => ErrorContent::Closed,
        AgentError::StalePermission => ErrorContent::StalePermission,
        AgentError::Protocol(t) => ErrorContent::Protocol(t@),
        AgentError::Provider { code } => ErrorContent::Provider(code),
        AgentError::Transport(t) => ErrorContent::Transport(t@),
        AgentError::Deadline => ErrorContent::Deadline,
        AgentError::Backpressure => ErrorContent::Backpressure,
        AgentError::AttachmentAuthorizationStale => ErrorContent::AttachmentAuthorizationStale,
        AgentError::AttachmentUnavailable(p) => ErrorContent::AttachmentUnavailable(p),
        AgentError::CleanupUncertain => ErrorContent::CleanupUncertain,
        AgentError::AuditFailure => ErrorContent::AuditFailure,
        AgentError::AuditAndCleanupFailure => ErrorContent::AuditAndCleanupFailure,
        AgentError::PermissionAnswerDeliveryAndAuditFailure { delivery_error, cleanup_error } => ErrorContent::PermissionAnswerDeliveryAndAuditFailure(
            Box::new(content(*delivery_error)),
            match cleanup_error {
                Some(x) => Some(Box::new(content(*x))),
                None => None,
            },
        ),
        AgentError::BeforeInvocationHook(f) => ErrorContent::BeforeInvocationHook(hook_content(f)),
        AgentError::AfterInvocationHooks { failures, execution_result } => ErrorContent::AfterInvocationHooks(
            failures@.map_values(|f: HookFailure| hook_content(f)),
            Box::new(
                match *execution_result {
                    Ok(o) => Ok(o),
                    Err(x) => Err(content(x)),
                },
            ),
        ),
    }
}

/// Whether two failures say the same: the same variants, the same text character
/// for character, and equal nested failures and outcomes.
pub open spec fn err_eq(a: AgentError, b: AgentError) -> bool {
    content(a) == content(b)
}

/// Whether two results agree, outcomes by value and failures by content.
pub open spec fn outcome_eq(a: Result<ExecutionOutcome, AgentError>, b: Result<ExecutionOutcome, AgentError>) -> bool {
    match a {
        Ok(o) => b == Ok::<ExecutionOutcome, AgentError>(o),
        Err(x) => match b {
            Err(y) => err_eq(x, y),
            Ok(_) => false,
        },
    }
}

fn same_text(a: &String, b: &String) -> (r: bool)
    ensures
        r == (a@ == b@),
{
    a.eq(b)
}

fn same_storage(a: &StorageError, b: &StorageError) -> (r: bool)
    ensures
        r == (storage_content(*a) == storage_content(*b)),
{
    match (a, b) {
        (StorageError::Io(x), StorageError::Io(y)) => same_text(x, y),
        (StorageError::Corrupt(x), StorageError::Corrupt(y)) => same_text(x, y),
        (StorageError::Busy, StorageError::Busy) => true,
        (StorageError::IdentityMismatch, StorageError::IdentityMismatch) => true,
        _ => false,
    }
}

fn same_hook(a: &HookFailure, b: &HookFailure) -> (r: bool)
    ensures
        r == (hook_content(*a) == hook_content(*b)),
{
    a.index == b.index && match (&a.error, &b.error) {
        (HookError::Failed(x), HookError::Failed(y)) => same_text(x, y),
        (HookError::Panicked, HookError::Panicked) => true,
        _ => false,
    }
}

fn same_hooks(a: &Vec<HookFailure>, b: &Vec<HookFailure>) -> (r: bool)
    ensures
        r == (a@.map_values(|f: HookFailure| hook_content(f)) == b@.map_values(|f: HookFailure| hook_content(f))),
{
    let ghost ca = a@.map_values(|f: HookFailure| hook_content(f));
    let ghost cb = b@.map_values(|f: HookFailure| hook_content(f));
    if a.len() != b.len() {
        assert(ca.len() != cb.len());
        return false;
    }
    let mut i: usize = 0;
    while i < a.len()
        invariant
            i <= a.len(),
            a.len() == b.len(),
            ca == a@.map_values(|f: HookFailure| hook_content(f)),
            cb == b@.map_values(|f: HookFailure| hook_content(f)),
            forall|j: int| 0 <= j < i ==> hook_content(#[trigger] a@[j]) == hook_content(b@[j]),
        decreases a.len() - i,
    {
        if !same_hook(&a[i], &b[i]) {
            assert(ca[i as int] != cb[i as int]);
            return false;
        }
        i = i + 1;
    }
    assert(ca =~= cb);
    true
}

fn same_outcome(a: &Result<ExecutionOutcome, AgentError>, b: &Result<ExecutionOutcome, AgentError>) -> (r: bool)
    ensures
        r == outcome_eq(*a, *b),
    decreases *a,
{
    match (a, b) {
        (Ok(x), Ok(y)) => *x == *y,
        (Err(x), Err(y)) => same_error(x, y),
        _ => false,
    }
}

fn same_close(a: &Result<CloseOutcome, AgentError>, b: &Result<CloseOutcome, AgentError>) -> (r: bool)
    ensures
        r == match *a {
            Ok(o) => *b == Ok::<CloseOutcome, AgentError>(o),
            Err(x) => match *b {
                Err(y) => err_eq(x, y),
                Ok(_) => false,
            },
        },
    decreases *a,
{
    match (a, b) {
        (Ok(x), Ok(y)) => *x == *y,
        (Err(x), Err(y)) => same_error(x, y),
        _ => false,
    }
}

/// Compares two failures by content, text character for character.
pub fn same_error(a: &AgentError, b: &AgentError) -> (r: bool)
    ensures
        r == err_eq(*a, *b),
    decreases *a,
{
    match (a, b) {
        (AgentError::Configuration(x), AgentError::Configuration(y))
        | (AgentError::Unsupported(x), AgentError::Unsupported(y))
        | (AgentError::InvalidInput(x), AgentError::InvalidInput(y))
        | (AgentError::Protocol(x), AgentError::Protocol(y))
        | (AgentError::Transport(x), AgentError::Transport(y)) => same_text(x, y),
        (AgentError::Storage(x), AgentError::Storage(y)) => same_storage(x, y),
        (AgentError::BeforeInvocationHook(x), AgentError::BeforeInvocationHook(y)) => same_hook(x, y),
        (
            AgentError::ExecutionObservation { error, execution_result },
            AgentError::ExecutionObservation { error: e2, execution_result: r2 },
        ) => same_error(error, e2) && match (execution_result, r2) {
            (None, None) => true,
            (Some(x), Some(y)) => same_outcome(x, y),
            _ => false,
        },
        (
            AgentError::MultipleOperationFailures { first_error, subsequent_error },
            AgentError::MultipleOperationFailures { first_error: f2, subsequent_error: s2 },
        ) => same_error(first_error, f2) && same_error(subsequent_error, s2),
        (
            AgentError::OperationAndCleanupFailure { operation_error, cleanup_error },
            AgentError::OperationAndCleanupFailure { operation_error: o2, cleanup_error: c2 },
        ) => same_error(operation_error, o2) && same_error(cleanup_error, c2),
        (
            AgentError::StorageDuringClose { error, cleanup_result },
            AgentError::StorageDuringClose { error: e2, cleanup_result: c2 },
        )
        | (
            AgentError::StorageInitialization { error, cleanup_result },
            AgentError::StorageInitialization { error: e2, cleanup_result: c2 },
        ) => same_storage(error, e2) && same_close(cleanup_result, c2),
        (
            AgentError::StorageAfterExecution { error, execution_result },
            AgentError::StorageAfterExecution { error: e2, execution_result: r2 },
        ) => same_storage(error, e2) && same_outcome(execution_result, r2),
        (
            AgentError::AfterInvocationHooks { failures, execution_result },
            AgentError::AfterInvocationHooks { failures: f2, execution_result: r2 },
        ) => same_hooks(failures, f2) && same_outcome(execution_result, r2),
        (
            AgentError::PermissionAnswerDeliveryAndAuditFailure { delivery_error, cleanup_error },
            AgentError::PermissionAnswerDeliveryAndAuditFailure { delivery_error: d2, cleanup_error: c2 },
        ) => same_error(delivery_error, d2) && match (cleanup_error, c2) {
            (None, None) => true,
            (Some(x), Some(y)) => same_error(x, y),
            _ => false,
        },
        (AgentError::OutputRetentionLimit, AgentError::OutputRetentionLimit)
        | (AgentError::DiagnosticLimit, AgentError::DiagnosticLimit)
        | (AgentError::SubmissionConflict, AgentError::SubmissionConflict)
        | (AgentError::SubmissionUnresolved, AgentError::SubmissionUnresolved)
        | (AgentError::Busy, AgentError::Busy)
        | (AgentError::Closed, AgentError::Closed)
        | (AgentError::StalePermission, AgentError::StalePermission)
        | (AgentError::Deadline, AgentError::Deadline)
        | (AgentError::Backpressure, AgentError::Backpressure)
        | (AgentError::AttachmentAuthorizationStale, AgentError::AttachmentAuthorizationStale)
        | (AgentError::CleanupUncertain, AgentError::CleanupUncertain)
        | (AgentError::AuditFailure, AgentError::AuditFailure)
        | (AgentError::AuditAndCleanupFailure, AgentError::AuditAndCleanupFailure) => true,
        (AgentError::Scheduling(x), AgentError::Scheduling(y)) => *x == *y,
        (AgentError::UserImage(x), AgentError::UserImage(y)) => *x == *y,
        (AgentError::ImageInputRefused(x), AgentError::ImageInputRefused(y)) => *x == *y,
        (
            AgentError::MessageTooLarge { encoded_bytes, max_bytes },
            AgentError::MessageTooLarge { encoded_bytes: e2, max_bytes: m2 },
        ) => *encoded_bytes == *e2 && *max_bytes == *m2,
        (AgentError::Provider { code }, AgentError::Provider { code: c2 }) => *code == *c2,
        (AgentError::AttachmentUnavailable(x), AgentError::AttachmentUnavailable(y)) => *x == *y,
        _ => false,
    }
}

fn copy_hooks(v: &Vec<HookFailure>) -> (r: Vec<HookFailure>)
    ensures
        r@ == v@,
{
    let mut out: Vec<HookFailure> = Vec::new();
    let mut i: usize = 0;
    while i < v.len()
        invariant
            i <= v.len(),
            out@ == v@.take(i as int),
        decreases v.len() - i,
    {
        out.push(v[i].clone());
        proof {
            assert(v@.take(i + 1) == v@.take(i as int).push(v@[i as int]));
        }
        i = i + 1;
    }
    proof {
        assert(v@.take(v.len() as int) == v@);
    }
    out
}

fn copy_outcome(r: &Result<ExecutionOutcome, AgentError>) -> (c: Result<ExecutionOutcome, AgentError>)
    ensures
        outcome_eq(*r, c),
    decreases *r,
{
    match r {
        Ok(o) => Ok(*o),
        Err(e) => Err(copy_error(e)),
    }
}

fn copy_close(r: &Result<CloseOutcome, AgentError>) -> (c: Result<CloseOutcome, AgentError>)
    ensures
        match *r {
            Ok(o) => c == Ok::<CloseOutcome, AgentError>(o),
            Err(x) => match c {
                Err(y) => err_eq(x, y),
                Ok(_) => false,
            },
        },
    decreases *r,
{
    match r {
        Ok(o) => Ok(*o),
        Err(e) => Err(copy_error(e)),
    }
}

/// A copy of `e` with the same content.
pub fn copy_error(e: &AgentError) -> (r: AgentError)
    ensures
        err_eq(*e, r),
    decreases *e,
{
    match e {
        AgentError::OutputRetentionLimit => AgentError::OutputRetentionLimit,
        AgentError::DiagnosticLimit => AgentError::DiagnosticLimit,
        AgentError::Configuration(t) => AgentError::Configuration(t.clone()),
        AgentError::SubmissionConflict => AgentError::SubmissionConflict,
        AgentError::SubmissionUnresolved => AgentError::SubmissionUnresolved,
        AgentError::ExecutionObservation { error, execution_result } => AgentError::ExecutionObservation {
            error: Box::new(copy_error(error)),
            execution_result: match execution_result {
                Some(r) => Some(Box::new(copy_outcome(r))),
                None => None,
            },
        },
        AgentError::MultipleOperationFailures { first_error, subsequent_error } => AgentError::MultipleOperationFailures {
            first_error: Box::new(copy_error(first_error)),
            subsequent_error: Box::new(copy_error(subsequent_error)),
        },
        AgentError::OperationAndCleanupFailure { operation_error, cleanup_error } => AgentError::OperationAndCleanupFailure {
            operation_error: Box::new(copy_error(operation_error)),
            cleanup_error: Box::new(copy_error(cleanup_error)),
        },
        AgentError::Scheduling(x) => AgentError::Scheduling(*x),
        AgentError::StorageDuringClose { error, cleanup_result } => AgentError::StorageDuringClose {
            error: error.clone(),
            cleanup_result: Box::new(copy_close(cleanup_result)),
        },
        AgentError::Storage(x) => AgentError::Storage(x.clone()),
        AgentError::StorageInitialization { error, cleanup_result } => AgentError::StorageInitialization {
            error: error.clone(),
            cleanup_result: Box::new(copy_close(cleanup_result)),
        },
        AgentError::StorageAfterExecution { error, execution_result } => AgentError::StorageAfterExecution {
            error: error.clone(),
            execution_result: Box::new(copy_outcome(execution_result)),
        },
        AgentError::Unsupported(t) => AgentError::Unsupported(t.clone()),
        AgentError::InvalidInput(t) => AgentError::InvalidInput(t.clone()),
        AgentError::UserImage(x) => AgentError::UserImage(*x),
        AgentError::ImageInputRefused(x) => AgentError::ImageInputRefused(*x),
        AgentError::MessageTooLarge { encoded_bytes, max_bytes } => AgentError::MessageTooLarge {
            encoded_bytes: *encoded_bytes,
            max_bytes: *max_bytes,
        },
        AgentError::Busy => AgentError::Busy,
        AgentError::Closed => AgentError::Closed,
        AgentError::StalePermission => AgentError::StalePermission,
        AgentError::Protocol(t) => AgentError::Protocol(t.clone()),
        AgentError::Provider { code } => AgentError::Provider { code: *code },
        AgentError::Transport(t) => AgentError::Transport(t.clone()),
        AgentError::Deadline => AgentError::Deadline,
        AgentError::Backpressure => AgentError::Backpressure,
        AgentError::AttachmentAuthorizationStale => AgentError::AttachmentAuthorizationStale,
        AgentError::AttachmentUnavailable(p) => AgentError::AttachmentUnavailable(*p),
        AgentError::CleanupUncertain => AgentError::CleanupUncertain,
        AgentError::AuditFailure => AgentError::AuditFailure,
        AgentError::AuditAndCleanupFailure => AgentError::AuditAndCleanupFailure,
        AgentError::PermissionAnswerDeliveryAndAuditFailure { delivery_error, cleanup_error } => AgentError::PermissionAnswerDeliveryAndAuditFailure {
            delivery_error: Box::new(copy_error(delivery_error)),
            cleanup_error: match cleanup_error {
                Some(c) => Some(Box::new(copy_error(c))),
                None => None,
            },
        },
        AgentError::BeforeInvocationHook(f) => AgentError::BeforeInvocationHook(f.clone()),
        AgentError::AfterInvocationHooks { failures, execution_result } => AgentError::AfterInvocationHooks {
            failures: copy_hooks(failures),
            execution_result: Box::new(copy_outcome(execution_result)),
        },
    }
}

impl Clone for AgentError {
    fn clone(&self) -> (r: Self)
        ensures
            err_eq(*self, r),
    {
        copy_error(self)
    }
}

proof fn lemma_hooks_eq_text(a: Seq<HookFailure>, b: Seq<HookFailure>)
    requires
        a.map_values(|f: HookFailure| hook_content(f)) == b.map_values(|f: HookFailure| hook_content(f)),
    ensures
        hooks_text(a) == hooks_text(b),
        a.len() == b.len(),
    decreases a.len(),
{
    let ca = a.map_values(|f: HookFailure| hook_content(f));
    let cb = b.map_values(|f: HookFailure| hook_content(f));
    assert(ca.len() == a.len() && cb.len() == b.len());
    if a.len() > 0 {
        assert(ca[a.len() - 1] == cb[b.len() - 1]);
        assert(hook_content(a.last()) == hook_content(b.last()));
        assert(a.drop_last().map_values(|f: HookFailure| hook_content(f)) =~= ca.drop_last());
        assert(b.drop_last().map_values(|f: HookFailure| hook_content(f)) =~= cb.drop_last());
        lemma_hooks_eq_text(a.drop_last(), b.drop_last());
    }
}

/// Failures with the same content have the same retained size, node count and depth.
pub proof fn lemma_err_eq_measure(a: AgentError, b: AgentError)
    requires
        err_eq(a, b),
    ensures
        measure(a) == measure(b),
    decreases a,
{
    match a {
        AgentError::ExecutionObservation { error, execution_result } => match b {
            AgentError::ExecutionObservation { error: e2, execution_result: r2 } => {
                lemma_err_eq_measure(*error, *e2);
                match execution_result {
                    Some(x) => match *x {
                        Err(x1) => match r2 {
                            Some(y) => match *y {
                                Err(y1) => lemma_err_eq_measure(x1, y1),
                                Ok(_) => {},
                            },
                            None => {},
                        },
                        Ok(_) => {},
                    },
                    None => {},
                }
            },
            _ => {},
        },
        AgentError::MultipleOperationFailures { first_error, subsequent_error } => match b {
            AgentError::MultipleOperationFailures { first_error: f2, subsequent_error: s2 } => {
                lemma_err_eq_measure(*first_error, *f2);
                lemma_err_eq_measure(*subsequent_error, *s2);
            },
            _ => {},
        },
        AgentError::OperationAndCleanupFailure { operation_error, cleanup_error } => match b {
            AgentError::OperationAndCleanupFailure { operation_error: o2, cleanup_error: c2 } => {
                lemma_err_eq_measure(*operation_error, *o2);
                lemma_err_eq_measure(*cleanup_error, *c2);
            },
            _ => {},
        },
        AgentError::StorageDuringClose { cleanup_result, .. } => match b {
            AgentError::StorageDuringClose { cleanup_result: c2, .. } => match *cleanup_result {
                Err(x1) => match *c2 {
                    Err(y1) => lemma_err_eq_measure(x1, y1),
                    Ok(_) => {},
                },
                Ok(_) => {},
            },
            _ => {},
        },
        AgentError::StorageInitialization { cleanup_result, .. } => match b {
            AgentError::StorageInitialization { cleanup_result: c2, .. } => match *cleanup_result {
                Err(x1) => match *c2 {
                    Err(y1) => lemma_err_eq_measure(x1, y1),
                    Ok(_) => {},
                },
                Ok(_) => {},
            },
            _ => {},
        },
        AgentError::StorageAfterExecution { execution_result, .. } => match b {
            AgentError::StorageAfterExecution { execution_result: r2, .. } => match *execution_result {
                Err(x1) => match *r2 {
                    Err(y1) => lemma_err_eq_measure(x1, y1),
                    Ok(_) => {},
                },
                Ok(_) => {},
            },
            _ => {},
        },
        AgentError::AfterInvocationHooks { failures, execution_result } => match b {
            AgentError::AfterInvocationHooks { failures: f2, execution_result: r2 } => {
                lemma_hooks_eq_text(failures@, f2@);
                match *execution_result {
                    Err(x1) => match *r2 {
                        Err(y1) => lemma_err_eq_measure(x1, y1),
                        Ok(_) => {},
                    },
                    Ok(_) => {},
                }
            },
            _ => {},
        },
        AgentError::PermissionAnswerDeliveryAndAuditFailure { delivery_error, cleanup_error } => match b {
            AgentError::PermissionAnswerDeliveryAndAuditFailure { delivery_error: d2, cleanup_error: c2 } => {
                lemma_err_eq_measure(*delivery_error, *d2);
                match cleanup_error {
                    Some(x) => match c2 {
                        Some(y) => lemma_err_eq_measure(*x, *y),
                        None => {},
                    },
                    None => {},
                }
            },
            _ => {},
        },
        _ => {},
    }
}

} // verus!
