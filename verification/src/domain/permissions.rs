//! Permission reviews: offered choices, their decisions, and once-only resolution.
use super::error::ExecutionError;
use super::ids::{ExecutionId, PermissionId, PermissionOptionId, ReviewDeclineId, ToolCallId};
use crate::text::{blank, blen, is_blank, lemma_sat_add, sat, sat_add, text_len};
use vstd::prelude::*;

verus! {

/// Whether a decision allows or denies the reviewed action.
#[derive(Clone, Copy, Debug, PartialEq, Eq, Structural)]
pub enum PermissionEffect {
    /// The action may proceed.
    Allow,
    /// The action must not proceed.
    Deny,
}

/// How far a decision reaches.
#[derive(Clone, Copy, Debug, PartialEq, Eq, Structural)]
pub enum PermissionScope {
    /// Only the reviewed request.
    Request,
    /// Every later matching request of the session.
    Session,
}

impl PermissionScope {
    /// The scope of a once-only decision.
    pub fn request() -> (r: Self)
        ensures
            r == PermissionScope::Request,
    {
        PermissionScope::Request
    }
}

/// The effect and reach of one offered choice.
#[derive(Clone, Copy, Debug, PartialEq, Eq, Structural)]
pub struct PermissionDecision {
    /// Allow or deny.
    pub effect: PermissionEffect,
    /// Reach of the decision.
    pub scope: PermissionScope,
}

impl PermissionDecision {
    /// Pairs `effect` with `scope`.
    pub fn new(effect: PermissionEffect, scope: PermissionScope) -> (r: Self)
        ensures
            r.effect == effect,
            r.scope == scope,
    {
        PermissionDecision { effect, scope }
    }
}

/// One choice offered by a review: identity, nonblank label, and decision.
#[derive(Debug, PartialEq, Eq)]
pub struct PermissionOption {
    id: PermissionOptionId,
    label: String,
    decision: PermissionDecision,
}

impl Clone for PermissionOption {
    fn clone(&self) -> (r: Self)
        ensures
            r == *self,
    {
        PermissionOption { id: self.id.clone(), label: self.label.clone(), decision: self.decision }
    }
}

impl PermissionOption {
    /// Identity of the choice.
    pub closed spec fn spec_id(self) -> PermissionOptionId {
        self.id
    }

    /// Label displayed for the choice.
    pub closed spec fn spec_label(self) -> Seq<char> {
        self.label@
    }

    /// Decision the choice selects.
    pub closed spec fn spec_decision(self) -> PermissionDecision {
        self.decision
    }

    /// A choice; a blank label is refused.
    pub fn new(id: PermissionOptionId, label: &str, decision: PermissionDecision) -> (r: Result<
        Self,
        ExecutionError,
    >)
        ensures
            r is Ok <==> !is_blank(label@),
            r matches Ok(o) ==> o.spec_id() == id && o.spec_label() == label@
                && o.spec_decision() == decision,
            r matches Err(e) ==> e == ExecutionError::BlankText,
    {
        if blank(label) {
            Err(ExecutionError::BlankText)
        } else {
            Ok(PermissionOption { id, label: label.to_owned(), decision })
        }
    }

    /// Identity of the choice.
    pub fn id(&self) -> (r: &PermissionOptionId)
        ensures
            *r == self.spec_id(),
    {
        &self.id
    }

    /// Label displayed for the choice.
    pub fn label(&self) -> (r: &str)
        ensures
            r@ == self.spec_label(),
    {
        self.label.as_str()
    }

    /// Decision the choice selects.
    pub fn decision(&self) -> (r: PermissionDecision)
        ensures
            r == self.spec_decision(),
    {
        self.decision
    }

    /// Retained bytes of the choice's identity and label.
    pub fn payload_bytes(&self) -> (r: usize)
        ensures
            r == option_bytes(*self),
    {
        sat_add(self.id.byte_len(), text_len(&self.label))
    }
}

/// Retained bytes of one choice's identity and label.
pub open spec fn option_bytes(o: PermissionOption) -> usize {
    sat(blen(o.spec_id()@) + blen(o.spec_label()))
}

/// Retained bytes of a list of choices.
pub open spec fn options_sum(s: Seq<PermissionOption>) -> int
    decreases s.len(),
{
    if s.len() == 0 {
        0
    } else {
        options_sum(s.drop_last()) + option_bytes(s.last())
    }
}

/// The sum of choice sizes is nonnegative.
pub proof fn lemma_options_sum_nonneg(s: Seq<PermissionOption>)
    ensures
        options_sum(s) >= 0,
    decreases s.len(),
{
    if s.len() > 0 {
        lemma_options_sum_nonneg(s.drop_last());
    }
}

/// Which decision scopes a review may offer.
#[derive(Clone, Copy, Debug, PartialEq, Eq, Structural)]
pub struct PermissionOfferPolicy {
    /// Whether session-wide decisions may be offered.
    pub allow_session_scope: bool,
}

impl PermissionOfferPolicy {
    /// Only once-only (request-scoped) decisions may be offered.
    pub fn once_only() -> (r: Self)
        ensures
            !r.allow_session_scope,
    {
        PermissionOfferPolicy { allow_session_scope: false }
    }
}

/// Whether `s` is a valid offer under `policy`: nonempty, identities distinct, and
/// every scope allowed.
pub open spec fn valid_offer(s: Seq<PermissionOption>, policy: PermissionOfferPolicy) -> bool {
    &&& s.len() > 0
    &&& forall|i: int, j: int|
        0 <= i < s.len() && 0 <= j < s.len() && i != j ==> #[trigger] s[i].spec_id()@
            != #[trigger] s[j].spec_id()@
    &&& forall|i: int|
        0 <= i < s.len() ==> (policy.allow_session_scope || #[trigger] s[i].spec_decision().scope
            == PermissionScope::Request)
}

/// The nonempty, distinct choices offered by one review.
#[derive(Debug, PartialEq, Eq)]
pub struct PermissionOptions {
    choices: Vec<PermissionOption>,
}

/// Identities of `s` are pairwise distinct.
pub open spec fn distinct_options(s: Seq<PermissionOption>) -> bool {
    forall|i: int, j: int|
        0 <= i < s.len() && 0 <= j < s.len() && i != j ==> #[trigger] s[i].spec_id()@
            != #[trigger] s[j].spec_id()@
}

impl PermissionOptions {
    #[verifier::type_invariant]
    spec fn inv(self) -> bool {
        self.choices@.len() > 0 && distinct_options(self.choices@)
    }
}

impl View for PermissionOptions {
    type V = Seq<PermissionOption>;

    closed spec fn view(&self) -> Seq<PermissionOption> {
        self.choices@
    }
}

impl Clone for PermissionOptions {
    fn clone(&self) -> (r: Self)
        ensures
            r@ == self@,
    {
        let mut v: Vec<PermissionOption> = Vec::new();
        let mut i: usize = 0;
        while i < self.choices.len()
            invariant
                i <= self.choices.len(),
                v@ == self.choices@.take(i as int),
            decreases self.choices.len() - i,
        {
            v.push(self.choices[i].clone());
            assert(self.choices@.take(i + 1) == self.choices@.take(i as int).push(
                self.choices@[i as int],
            ));
            i = i + 1;
        }
        assert(self.choices@.take(self.choices.len() as int) == self.choices@);
        proof {
            use_type_invariant(self);
        }
        PermissionOptions { choices: v }
    }
}

impl PermissionOptions {
    /// Validates `choices` against `policy`; refuses an empty list, a repeated
    /// identity, or a scope the policy does not allow.
    pub fn new(choices: Vec<PermissionOption>, policy: &PermissionOfferPolicy) -> (r: Result<
        Self,
        ExecutionError,
    >)
        ensures
            r is Ok <==> valid_offer(choices@, *policy),
            r matches Ok(o) ==> o@ == choices@,
            r matches Err(e) ==> e == ExecutionError::InvalidOptions,
    {
        if choices.len() == 0 {
            return Err(ExecutionError::InvalidOptions);
        }
        let mut i: usize = 0;
        while i < choices.len()
            invariant
                i <= choices.len(),
                forall|a: int, b: int|
                    0 <= a < i && 0 <= b < choices@.len() && a != b ==> #[trigger] choices@[a].spec_id()@
                        != #[trigger] choices@[b].spec_id()@,
                forall|a: int|
                    0 <= a < i ==> (policy.allow_session_scope
                        || #[trigger] choices@[a].spec_decision().scope == PermissionScope::Request),
            decreases choices.len() - i,
        {
            if !policy.allow_session_scope && choices[i].decision.scope != PermissionScope::Request {
                assert(!(policy.allow_session_scope || choices@[i as int].spec_decision().scope
                    == PermissionScope::Request));
                return Err(ExecutionError::InvalidOptions);
            }
            let mut j: usize = 0;
            while j < choices.len()
                invariant
                    i < choices.len(),
                    j <= choices.len(),
                    forall|b: int|
                        0 <= b < j && b != i ==> choices@[i as int].spec_id()@ != #[trigger] choices@[b].spec_id()@,
                decreases choices.len() - j,
            {
                if j != i && choices[i].id.same(&choices[j].id) {
                    assert(choices@[i as int].spec_id()@ == choices@[j as int].spec_id()@);
                    return Err(ExecutionError::InvalidOptions);
                }
                j = j + 1;
            }
            i = i + 1;
        }
        Ok(PermissionOptions { choices })
    }

    /// The offered choices in order; never empty.
    pub fn choices(&self) -> (r: &[PermissionOption])
        ensures
            r@ == self@,
            r@.len() > 0,
    {
        proof {
            use_type_invariant(self);
        }
        self.choices.as_slice()
    }

    /// Retained bytes of every choice's identity and label.
    pub fn payload_bytes(&self) -> (r: usize)
        ensures
            r == sat(options_sum(self@)),
    {
        let mut acc: usize = 0;
        let mut i: usize = 0;
        while i < self.choices.len()
            invariant
                i <= self.choices.len(),
                acc == sat(options_sum(self.choices@.take(i as int))),
            decreases self.choices.len() - i,
        {
            let b = self.choices[i].payload_bytes();
            proof {
                assert(self.choices@.take(i + 1).drop_last() == self.choices@.take(i as int));
                lemma_options_sum_nonneg(self.choices@.take(i as int));
                lemma_sat_add(options_sum(self.choices@.take(i as int)), b as int);
            }
            acc = sat_add(acc, b);
            i = i + 1;
        }
        assert(self.choices@.take(self.choices.len() as int) == self.choices@);
        acc
    }

    /// Index of the choice whose identity has the text of `id`.
    pub fn find(&self, id: &PermissionOptionId) -> (r: Option<usize>)
        ensures
            r matches Some(i) ==> i < self@.len() && self@[i as int].spec_id()@ == id@,
            r is None ==> forall|i: int| 0 <= i < self@.len() ==> #[trigger] self@[i].spec_id()@ != id@,
    {
        let mut i: usize = 0;
        while i < self.choices.len()
            invariant
                i <= self.choices.len(),
                forall|j: int| 0 <= j < i ==> #[trigger] self.choices@[j].spec_id()@ != id@,
            decreases self.choices.len() - i,
        {
            if self.choices[i].id.same(id) {
                return Some(i);
            }
            i = i + 1;
        }
        None
    }
}

/// Caller-owned cancellation cause: a stable code and a human-readable message.
#[derive(Debug, PartialEq, Eq)]
pub struct CustomPermissionCancellationReason {
    code: String,
    message: String,
}

impl Clone for CustomPermissionCancellationReason {
    fn clone(&self) -> (r: Self)
        ensures
            r == *self,
    {
        CustomPermissionCancellationReason { code: self.code.clone(), message: self.message.clone() }
    }
}

impl CustomPermissionCancellationReason {
    /// Stable machine-readable code.
    pub closed spec fn spec_code(self) -> Seq<char> {
        self.code@
    }

    /// Human-readable message.
    pub closed spec fn spec_message(self) -> Seq<char> {
        self.message@
    }

    /// A caller cause; a blank code or message is refused.
    pub fn new(code: &str, message: &str) -> (r: Result<Self, ExecutionError>)
        ensures
            r is Ok <==> !is_blank(code@) && !is_blank(message@),
            r matches Ok(c) ==> c.spec_code() == code@ && c.spec_message() == message@,
            r matches Err(e) ==> e == ExecutionError::BlankText,
    {
        if blank(code) || blank(message) {
            Err(ExecutionError::BlankText)
        } else {
            Ok(CustomPermissionCancellationReason { code: code.to_owned(), message: message.to_owned() })
        }
    }

    /// Stable machine-readable code.
    pub fn code(&self) -> (r: &str)
        ensures
            r@ == self.spec_code(),
    {
        self.code.as_str()
    }

    /// Human-readable message.
    pub fn message(&self) -> (r: &str)
        ensures
            r@ == self.spec_message(),
    {
        self.message.as_str()
    }

    /// Retained bytes of code and message.
    pub fn payload_bytes(&self) -> (r: usize)
        ensures
            r == sat(blen(self.spec_code()) + blen(self.spec_message())),
    {
        sat_add(text_len(&self.code), text_len(&self.message))
    }
}

/// Why a pending review stopped waiting, or why an execution or session ended.
#[derive(Debug, PartialEq, Eq)]
pub enum PermissionCancellationReason {
    /// The provider withdrew the review.
    ProviderWithdrawal,
    /// The session was closed explicitly or by its owner.
    SessionClosed,
    /// The session failed.
    SessionFailed,
    /// The execution finished.
    ExecutionFinished,
    /// The execution failed.
    ExecutionFailed,
    /// A deadline passed.
    DeadlineExceeded,
    /// The event consumer went away.
    EventConsumerDropped,
    /// Every session handle was dropped.
    SessionHandlesDropped,
    /// A caller-owned cause.
    Custom(CustomPermissionCancellationReason),
}

/// The classification of a cancellation cause; the cause itself.
pub type PermissionCancellationReasonView = PermissionCancellationReason;

impl Clone for PermissionCancellationReason {
    fn clone(&self) -> (r: Self)
        ensures
            r == *self,
    {
        match self {
            PermissionCancellationReason::ProviderWithdrawal => PermissionCancellationReason::ProviderWithdrawal,
            PermissionCancellationReason::SessionClosed => PermissionCancellationReason::SessionClosed,
            PermissionCancellationReason::SessionFailed => PermissionCancellationReason::SessionFailed,
            PermissionCancellationReason::ExecutionFinished => PermissionCancellationReason::ExecutionFinished,
            PermissionCancellationReason::ExecutionFailed => PermissionCancellationReason::ExecutionFailed,
            PermissionCancellationReason::DeadlineExceeded => PermissionCancellationReason::DeadlineExceeded,
            PermissionCancellationReason::EventConsumerDropped => PermissionCancellationReason::EventConsumerDropped,
            PermissionCancellationReason::SessionHandlesDropped => PermissionCancellationReason::SessionHandlesDropped,
            PermissionCancellationReason::Custom(c) => PermissionCancellationReason::Custom(c.clone()),
        }
    }
}

/// Causes that may withdraw one pending review while its execution continues.
pub open spec fn withdraws_single_review(r: PermissionCancellationReason) -> bool {
    r is ProviderWithdrawal || r is DeadlineExceeded || r is Custom
}

/// Causes that may close a session.
pub open spec fn closes_session(r: PermissionCancellationReason) -> bool {
    !(r is ProviderWithdrawal || r is ExecutionFinished || r is Custom)
}

/// Causes that may describe a failed execution; session-ending causes only once the
/// session is closed.
pub open spec fn fails_execution(r: PermissionCancellationReason, closed: bool) -> bool {
    r is ExecutionFailed || r is DeadlineExceeded || (closed && (r is SessionClosed
        || r is SessionFailed || r is EventConsumerDropped || r is SessionHandlesDropped))
}

/// Retained bytes a cause owns.
pub open spec fn reason_bytes(r: PermissionCancellationReason) -> usize {
    match r {
        PermissionCancellationReason::Custom(c) => sat(blen(c.spec_code()) + blen(c.spec_message())),
        _ => 0,
    }
}

impl PermissionCancellationReason {
    /// The provider withdrew the review.
    pub fn provider_withdrawal() -> (r: Self)
        ensures
            r == PermissionCancellationReason::ProviderWithdrawal,
    {
        PermissionCancellationReason::ProviderWithdrawal
    }

    /// The session was closed.
    pub fn session_closed() -> (r: Self)
        ensures
            r == PermissionCancellationReason::SessionClosed,
    {
        PermissionCancellationReason::SessionClosed
    }

    /// The session failed.
    pub fn session_failed() -> (r: Self)
        ensures
            r == PermissionCancellationReason::SessionFailed,
    {
        PermissionCancellationReason::SessionFailed
    }

    /// The execution finished.
    pub fn execution_finished() -> (r: Self)
        ensures
            r == PermissionCancellationReason::ExecutionFinished,
    {
        PermissionCancellationReason::ExecutionFinished
    }

    /// The execution failed.
    pub fn execution_failed() -> (r: Self)
        ensures
            r == PermissionCancellationReason::ExecutionFailed,
    {
        PermissionCancellationReason::ExecutionFailed
    }

    /// A deadline passed.
    pub fn deadline_exceeded() -> (r: Self)
        ensures
            r == PermissionCancellationReason::DeadlineExceeded,
    {
        PermissionCancellationReason::DeadlineExceeded
    }

    /// The event consumer went away.
    pub fn event_consumer_dropped() -> (r: Self)
        ensures
            r == PermissionCancellationReason::EventConsumerDropped,
    {
        PermissionCancellationReason::EventConsumerDropped
    }

    /// Every session handle was dropped.
    pub fn session_handles_dropped() -> (r: Self)
        ensures
            r == PermissionCancellationReason::SessionHandlesDropped,
    {
        PermissionCancellationReason::SessionHandlesDropped
    }

    /// A caller-owned cause.
    pub fn custom(reason: CustomPermissionCancellationReason) -> (r: Self)
        ensures
            r == PermissionCancellationReason::Custom(reason),
    {
        PermissionCancellationReason::Custom(reason)
    }

    /// The cause's classification.
    pub fn view(&self) -> (r: &PermissionCancellationReasonView)
        ensures
            *r == *self,
    {
        self
    }

    /// Whether this cause may withdraw one pending review.
    pub fn withdraws_single_review(&self) -> (r: bool)
        ensures
            r == withdraws_single_review(*self),
    {
        match self {
            PermissionCancellationReason::ProviderWithdrawal
            | PermissionCancellationReason::DeadlineExceeded
            | PermissionCancellationReason::Custom(_) => true,
            _ => false,
        }
    }

    /// Whether this cause may close a session.
    pub fn closes_session(&self) -> (r: bool)
        ensures
            r == closes_session(*self),
    {
        match self {
            PermissionCancellationReason::ProviderWithdrawal
            | PermissionCancellationReason::ExecutionFinished
            | PermissionCancellationReason::Custom(_) => false,
            _ => true,
        }
    }

    /// Whether this cause may describe a failed execution of a session that is
    /// `closed` or not.
    pub fn fails_execution(&self, closed: bool) -> (r: bool)
        ensures
            r == fails_execution(*self, closed),
    {
        match self {
            PermissionCancellationReason::ExecutionFailed
            | PermissionCancellationReason::DeadlineExceeded => true,
            PermissionCancellationReason::SessionClosed
            | PermissionCancellationReason::SessionFailed
            | PermissionCancellationReason::EventConsumerDropped
            | PermissionCancellationReason::SessionHandlesDropped => closed,
            _ => false,
        }
    }

    /// Whether this cause is `ExecutionFailed`.
    pub fn is_execution_failed(&self) -> (r: bool)
        ensures
            r == (*self is ExecutionFailed),
    {
        match self {
            PermissionCancellationReason::ExecutionFailed => true,
            _ => false,
        }
    }

    /// Retained bytes this cause owns.
    pub fn payload_bytes(&self) -> (r: usize)
        ensures
            r == reason_bytes(*self),
    {
        match self {
            PermissionCancellationReason::Custom(c) => c.payload_bytes(),
            _ => 0,
        }
    }
}

/// Lifecycle state of one review.
#[derive(Debug, PartialEq, Eq)]
pub enum PermissionStateView {
    /// Waiting for a decision.
    Pending,
    /// Resolved by choosing an offered option.
    Answered {
        /// Chosen option.
        option_id: PermissionOptionId,
        /// Decision of the chosen option.
        decision: PermissionDecision,
    },
    /// Withdrawn without a decision.
    Cancelled {
        /// Why the review stopped waiting.
        reason: PermissionCancellationReason,
    },
}

impl Clone for PermissionStateView {
    fn clone(&self) -> (r: Self)
        ensures
            r == *self,
    {
        match self {
            PermissionStateView::Pending => PermissionStateView::Pending,
            PermissionStateView::Answered { option_id, decision } => PermissionStateView::Answered {
                option_id: option_id.clone(),
                decision: *decision,
            },
            PermissionStateView::Cancelled { reason } => PermissionStateView::Cancelled {
                reason: reason.clone(),
            },
        }
    }
}

/// One review of a tool action: identities, offered choices and state.
#[derive(Debug, PartialEq, Eq)]
pub struct PermissionRequest {
    id: PermissionId,
    execution_id: ExecutionId,
    tool_id: ToolCallId,
    options: PermissionOptions,
    state: PermissionStateView,
}

/// Mathematical value of a [`PermissionRequest`].
pub struct PermissionRequestView {
    /// Review identity.
    pub id: PermissionId,
    /// Owning execution.
    pub execution_id: ExecutionId,
    /// Reviewed tool.
    pub tool_id: ToolCallId,
    /// Offered choices.
    pub options: Seq<PermissionOption>,
    /// Lifecycle state.
    pub state: PermissionStateView,
}

impl View for PermissionRequest {
    type V = PermissionRequestView;

    closed spec fn view(&self) -> PermissionRequestView {
        PermissionRequestView {
            id: self.id,
            execution_id: self.execution_id,
            tool_id: self.tool_id,
            options: self.options@,
            state: self.state,
        }
    }
}

impl Clone for PermissionRequest {
    fn clone(&self) -> (r: Self)
        ensures
            r@ == self@,
    {
        PermissionRequest {
            id: self.id.clone(),
            execution_id: self.execution_id.clone(),
            tool_id: self.tool_id.clone(),
            options: self.options.clone(),
            state: self.state.clone(),
        }
    }
}

/// Retained bytes of a review: its identities, choices and owned cause.
pub open spec fn request_bytes(v: PermissionRequestView) -> usize {
    sat(
        blen(v.id@) + blen(v.execution_id@) + blen(v.tool_id@) + sat(options_sum(v.options)) + (
        match v.state {
            PermissionStateView::Cancelled { reason } => reason_bytes(reason) as int,
            _ => 0,
        }),
    )
}

/// The state a review reaches when `option` is chosen from `options`, if offered.
pub open spec fn answered_state(options: Seq<PermissionOption>, option: Seq<char>) -> Option<
    PermissionStateView,
> {
    if exists|i: int| 0 <= i < options.len() && #[trigger] options[i].spec_id()@ == option {
        let i = choose|i: int| 0 <= i < options.len() && #[trigger] options[i].spec_id()@ == option;
        Some(
            PermissionStateView::Answered {
                option_id: options[i].spec_id(),
                decision: options[i].spec_decision(),
            },
        )
    } else {
        None
    }
}

impl PermissionRequest {
    /// A pending review of `tool` in `execution` offering `options`.
    pub fn new(
        id: PermissionId,
        execution_id: ExecutionId,
        tool_id: ToolCallId,
        options: PermissionOptions,
    ) -> (r: Self)
        ensures
            r@.id == id,
            r@.execution_id == execution_id,
            r@.tool_id == tool_id,
            r@.options == options@,
            r@.state == PermissionStateView::Pending,
    {
        PermissionRequest { id, execution_id, tool_id, options, state: PermissionStateView::Pending }
    }

    /// Review identity.
    pub fn id(&self) -> (r: &PermissionId)
        ensures
            *r == self@.id,
    {
        &self.id
    }

    /// Owning execution.
    pub fn execution_id(&self) -> (r: &ExecutionId)
        ensures
            *r == self@.execution_id,
    {
        &self.execution_id
    }

    /// Reviewed tool.
    pub fn tool_id(&self) -> (r: &ToolCallId)
        ensures
            *r == self@.tool_id,
    {
        &self.tool_id
    }

    /// Offered choices.
    pub fn options(&self) -> (r: &PermissionOptions)
        ensures
            r@ == self@.options,
    {
        &self.options
    }

    /// Lifecycle state.
    pub fn state(&self) -> (r: &PermissionStateView)
        ensures
            *r == self@.state,
    {
        &self.state
    }

    /// Whether the review is still waiting.
    pub fn is_pending(&self) -> (r: bool)
        ensures
            r == (self@.state is Pending),
    {
        match self.state {
            PermissionStateView::Pending => true,
            _ => false,
        }
    }

    /// Withdraws a pending review for `reason`; a resolved review is refused unchanged.
    pub fn cancel(&mut self, reason: PermissionCancellationReason) -> (r: Result<(), ExecutionError>)
        ensures
            r is Ok <==> old(self)@.state is Pending,
            r is Ok ==> final(self)@ == (PermissionRequestView {
                state: PermissionStateView::Cancelled { reason },
                ..old(self)@
            }),
            r matches Err(e) ==> e == ExecutionError::PermissionNotPending && final(self)@ == old(self)@,
    {
        if !self.is_pending() {
            return Err(ExecutionError::PermissionNotPending);
        }
        self.state = PermissionStateView::Cancelled { reason };
        Ok(())
    }

    /// Resolves a pending review by choosing the offered option named `option`.
    pub fn answer(&mut self, option: &PermissionOptionId) -> (r: Result<(), ExecutionError>)
        ensures
            r is Ok <==> old(self)@.state is Pending && answered_state(old(self)@.options, option@) is Some,
            r is Ok ==> final(self)@ == (PermissionRequestView {
                state: answered_state(old(self)@.options, option@)->0,
                ..old(self)@
            }),
            r matches Err(e) ==> final(self)@ == old(self)@ && (if old(self)@.state is Pending {
                e == ExecutionError::OptionNotOffered
            } else {
                e == ExecutionError::PermissionNotPending
            }),
    {
        if !self.is_pending() {
            return Err(ExecutionError::PermissionNotPending);
        }
        match self.options.find(option) {
            None => Err(ExecutionError::OptionNotOffered),
            Some(i) => {
                let chosen = &self.options.choices()[i];
                let state = PermissionStateView::Answered {
                    option_id: chosen.id().clone(),
                    decision: chosen.decision(),
                };
                proof {
                    use_type_invariant(&self.options);
                    let opts = self.options@;
                    assert(opts[i as int].spec_id()@ == option@);
                    let j = choose|j: int| 0 <= j < opts.len() && #[trigger] opts[j].spec_id()@ == option@;
                    assert(j == i);
                }
                self.state = state;
                Ok(())
            },
        }
    }

    /// Retained bytes of identities, choices and owned cause.
    pub fn payload_bytes(&self) -> (r: usize)
        ensures
            r == request_bytes(self@),
    {
        let state_bytes = match &self.state {
            PermissionStateView::Cancelled { reason } => reason.payload_bytes(),
            _ => 0,
        };
        let a = sat_add(self.id.byte_len(), self.execution_id.byte_len());
        let b = sat_add(a, self.tool_id.byte_len());
        let c = sat_add(b, self.options.payload_bytes());
        proof {
            lemma_options_sum_nonneg(self.options@);
            lemma_sat_add(blen(self.id@) + blen(self.execution_id@), blen(self.tool_id@) as int);
            lemma_sat_add(
                blen(self.id@) + blen(self.execution_id@) + blen(self.tool_id@),
                sat(options_sum(self.options@)) as int,
            );
            lemma_sat_add(
                blen(self.id@) + blen(self.execution_id@) + blen(self.tool_id@) + sat(options_sum(self.options@)),
                state_bytes as int,
            );
        }
        sat_add(c, state_bytes)
    }
}

/// What this binding declared when it declined a review, if anything.
#[derive(Debug, PartialEq, Eq)]
pub struct ReviewDecline {
    /// Declared explanation.
    pub declared: Option<String>,
}

impl Clone for ReviewDecline {
    fn clone(&self) -> (r: Self)
        ensures
            r == *self,
    {
        ReviewDecline {
            declared: match &self.declared {
                Some(s) => Some(s.clone()),
                None => None,
            },
        }
    }
}

impl ReviewDecline {
    /// Declared explanation, if any.
    pub fn declared(&self) -> (r: Option<&str>)
        ensures
            r is Some <==> self.declared is Some,
            r is Some ==> r->0@ == self.declared->0@,
    {
        match &self.declared {
            Some(s) => Some(s.as_str()),
            None => None,
        }
    }
}

/// A declined review as it appears in the execution's observations.
#[derive(Debug, PartialEq, Eq)]
pub struct ReviewDeclineObservation {
    /// Identity of the declined review.
    pub id: ReviewDeclineId,
    /// What was declared.
    pub decline: ReviewDecline,
}

impl Clone for ReviewDeclineObservation {
    fn clone(&self) -> (r: Self)
        ensures
            r == *self,
    {
        ReviewDeclineObservation { id: self.id.clone(), decline: self.decline.clone() }
    }
}

impl ReviewDeclineObservation {
    /// Identity of the declined review.
    pub fn id(&self) -> (r: &ReviewDeclineId)
        ensures
            *r == self.id,
    {
        &self.id
    }

    /// What was declared.
    pub fn decline(&self) -> (r: &ReviewDecline)
        ensures
            *r == self.decline,
    {
        &self.decline
    }
}

} // verus!
