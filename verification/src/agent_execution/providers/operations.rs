//! Provider facts and the effective operations resolved from them.
use vstd::prelude::*;

verus! {

/// Whether a provider can carry a denial for a permission review it raised.
#[derive(Clone, Copy, Debug, PartialEq, Eq, Structural)]
pub enum PermissionDenialCapability {
    /// Not yet established.
    Unknown,
    /// A denial cannot be delivered through a review.
    Unsupported,
    /// A rejecting option offered by the review can be selected.
    SupportedForOfferedPermissionReviews,
}

impl Default for PermissionDenialCapability {
    fn default() -> (r: Self)
        ensures
            r == PermissionDenialCapability::Unknown,
    {
        PermissionDenialCapability::Unknown
    }
}

/// Whether user-configured executable hooks are proven disabled in the provider.
#[derive(Clone, Copy, Debug, PartialEq, Eq, Structural)]
pub enum NativeHookSuppressionCapability {
    /// The effective configuration is not verified.
    Unknown,
    /// Such hooks cannot be suppressed.
    Unsupported,
    /// Such hooks are proven disabled for this context.
    SupportedForUserConfiguredHooks,
}

impl Default for NativeHookSuppressionCapability {
    fn default() -> (r: Self)
        ensures
            r == NativeHookSuppressionCapability::Unknown,
    {
        NativeHookSuppressionCapability::Unknown
    }
}

/// Whether provider compaction is reported with the invocation it affected.
#[derive(Clone, Copy, Debug, PartialEq, Eq, Structural)]
pub enum ProviderCompactionReportingCapability {
    /// Not verified.
    Unknown,
    /// Compaction cannot be reported.
    Unsupported,
    /// Completed compaction is reported with its invocation.
    SupportedWithInvocationCorrelation,
}

impl Default for ProviderCompactionReportingCapability {
    fn default() -> (r: Self)
        ensures
            r == ProviderCompactionReportingCapability::Unknown,
    {
        ProviderCompactionReportingCapability::Unknown
    }
}

/// Whether provider model switches are reported once their effect is verified.
#[derive(Clone, Copy, Debug, PartialEq, Eq, Structural)]
pub enum ProviderModelSwitchReportingCapability {
    /// Not verified.
    Unknown,
    /// Model switches cannot be reported.
    Unsupported,
    /// The validated model is reported after a completed switch.
    SupportedAfterValidatedSwitch,
}

impl Default for ProviderModelSwitchReportingCapability {
    fn default() -> (r: Self)
        ensures
            r == ProviderModelSwitchReportingCapability::Unknown,
    {
        ProviderModelSwitchReportingCapability::Unknown
    }
}

/// Whether a provider offers an explicit nonterminal defer outcome for a review.
#[derive(Clone, Copy, Debug, PartialEq, Eq, Structural)]
pub enum ProviderPermissionDeferralCapability {
    /// Not verified.
    Unknown,
    /// No defer outcome keeps the review unresolved.
    Unsupported,
    /// A defer outcome keeps the review pending for one later answer.
    SupportedWithNonterminalOutcome,
}

impl Default for ProviderPermissionDeferralCapability {
    fn default() -> (r: Self)
        ensures
            r == ProviderPermissionDeferralCapability::Unknown,
    {
        ProviderPermissionDeferralCapability::Unknown
    }
}

/// Whether an MCP server elicitation completes one correlated provider round trip.
#[derive(Clone, Copy, Debug, PartialEq, Eq, Structural)]
pub enum ElicitationForwardingCapability {
    /// Not verified.
    Unknown,
    /// Elicitation cannot be forwarded.
    Unsupported,
    /// A request is forwarded and its correlated result returned.
    SupportedWithCorrelatedRoundTrip,
}

impl Default for ElicitationForwardingCapability {
    fn default() -> (r: Self)
        ensures
            r == ElicitationForwardingCapability::Unknown,
    {
        ElicitationForwardingCapability::Unknown
    }
}

/// Whether a configured policy can deny a tool before execution.
#[derive(Clone, Copy, Debug, PartialEq, Eq, Structural)]
pub enum PreToolPolicyCapability {
    /// Not established.
    Unknown,
    /// The policy evaluator is not implemented.
    UnsupportedNotImplemented,
    /// Denial is enforced at a proven permission gate.
    SupportedAtPermissionGate,
}

/// Whether a policy can end its current invocation.
#[derive(Clone, Copy, Debug, PartialEq, Eq, Structural)]
pub enum PolicyEndTurnCapability {
    /// Not established.
    Unknown,
    /// Not implemented.
    UnsupportedNotImplemented,
    /// A policy can stop its current invocation.
    SupportedForCurrentInvocation,
}

/// Whether a policy can close its provider session.
#[derive(Clone, Copy, Debug, PartialEq, Eq, Structural)]
pub enum PolicyCloseSessionCapability {
    /// Not established.
    Unknown,
    /// Not implemented.
    UnsupportedNotImplemented,
    /// A policy can close its session.
    SupportedForSession,
}

/// Whether an incoming elicitation can be received and resolved.
#[derive(Clone, Copy, Debug, PartialEq, Eq, Structural)]
pub enum IncomingElicitationCapability {
    /// Not established.
    Unknown,
    /// Not implemented.
    UnsupportedNotImplemented,
    /// One request is accepted and its result returned.
    SupportedWithCorrelatedRoundTrip,
}

/// Whether compaction is reported with invocation correlation.
#[derive(Clone, Copy, Debug, PartialEq, Eq, Structural)]
pub enum CompactionReportingCapability {
    /// Not implemented.
    UnsupportedNotImplemented,
    /// Completed compaction is reported with its invocation.
    SupportedWithInvocationCorrelation,
}

/// Whether a validated model switch is reported.
#[derive(Clone, Copy, Debug, PartialEq, Eq, Structural)]
pub enum ModelSwitchReportingCapability {
    /// Not implemented.
    UnsupportedNotImplemented,
    /// The validated model is reported after a switch.
    SupportedAfterValidatedSwitch,
}

/// Whether a review can be explicitly deferred for a later answer.
#[derive(Clone, Copy, Debug, PartialEq, Eq, Structural)]
pub enum PermissionDeferralCapability {
    /// Not implemented.
    UnsupportedNotImplemented,
    /// A defer outcome keeps the review pending for one later answer.
    SupportedWithNonterminalOutcome,
}

/// Provider facts an adapter may publish once its connection is verified.
#[derive(Clone, Copy, Debug, PartialEq, Eq, Structural)]
pub struct ProviderOperationCapabilities {
    /// The other fields come from a completed, verified connection.
    pub negotiated: bool,
    /// The provider can inject input into an identified active invocation.
    pub native_steering: bool,
    /// The provider can restore the same context after the connection closes.
    pub session_resume: bool,
    /// The agent accepts images and the binding can supply their bytes.
    pub image_input: bool,
    /// Delivery of a rejecting permission option.
    pub permission_denial: PermissionDenialCapability,
    /// Suppression of user-configured provider hooks.
    pub native_hook_suppression: NativeHookSuppressionCapability,
    /// Correlated provider compaction reporting.
    pub compaction_reporting: ProviderCompactionReportingCapability,
    /// Validated model-switch reporting.
    pub model_switch_reporting: ProviderModelSwitchReportingCapability,
    /// A nonterminal defer outcome for reviews.
    pub permission_deferral: ProviderPermissionDeferralCapability,
    /// Correlated forwarding of MCP elicitation.
    pub elicitation_forwarding: ElicitationForwardingCapability,
}

/// Provider facts before negotiation: nothing supported, everything unknown.
pub open spec fn unnegotiated() -> ProviderOperationCapabilities {
    ProviderOperationCapabilities {
        negotiated: false,
        native_steering: false,
        session_resume: false,
        image_input: false,
        permission_denial: PermissionDenialCapability::Unknown,
        native_hook_suppression: NativeHookSuppressionCapability::Unknown,
        compaction_reporting: ProviderCompactionReportingCapability::Unknown,
        model_switch_reporting: ProviderModelSwitchReportingCapability::Unknown,
        permission_deferral: ProviderPermissionDeferralCapability::Unknown,
        elicitation_forwarding: ElicitationForwardingCapability::Unknown,
    }
}

impl Default for ProviderOperationCapabilities {
    fn default() -> (r: Self)
        ensures
            r == unnegotiated(),
    {
        ProviderOperationCapabilities {
            negotiated: false,
            native_steering: false,
            session_resume: false,
            image_input: false,
            permission_denial: PermissionDenialCapability::Unknown,
            native_hook_suppression: NativeHookSuppressionCapability::Unknown,
            compaction_reporting: ProviderCompactionReportingCapability::Unknown,
            model_switch_reporting: ProviderModelSwitchReportingCapability::Unknown,
            permission_deferral: ProviderPermissionDeferralCapability::Unknown,
            elicitation_forwarding: ElicitationForwardingCapability::Unknown,
        }
    }
}

/// The provider facts that count: as published once negotiated; before that the
/// scoped facts reset to unknown while the plain flags are kept.
pub open spec fn effective_provider(p: ProviderOperationCapabilities) -> ProviderOperationCapabilities {
    if p.negotiated {
        p
    } else {
        ProviderOperationCapabilities {
            permission_denial: PermissionDenialCapability::Unknown,
            native_hook_suppression: NativeHookSuppressionCapability::Unknown,
            compaction_reporting: ProviderCompactionReportingCapability::Unknown,
            model_switch_reporting: ProviderModelSwitchReportingCapability::Unknown,
            permission_deferral: ProviderPermissionDeferralCapability::Unknown,
            elicitation_forwarding: ElicitationForwardingCapability::Unknown,
            ..p
        }
    }
}

/// Effective operations available to an agent: a point-in-time snapshot, not an
/// admission permit. Application features not implemented stay unsupported.
#[derive(Clone, Copy, Debug, PartialEq, Eq, Structural)]
pub struct OperationCapabilities {
    provider: ProviderOperationCapabilities,
    compaction_reporting: CompactionReportingCapability,
    model_switch_reporting: ModelSwitchReportingCapability,
    permission_deferral: PermissionDeferralCapability,
    pre_tool_policy: PreToolPolicyCapability,
    policy_end_turn: PolicyEndTurnCapability,
    policy_close_session: PolicyCloseSessionCapability,
    incoming_elicitation: IncomingElicitationCapability,
}

impl Default for OperationCapabilities {
    fn default() -> (r: Self)
        ensures
            r.spec_provider() == effective_provider(unnegotiated()),
            r.resolved_application(),
    {
        Self::resolve(ProviderOperationCapabilities::default())
    }
}

impl OperationCapabilities {
    /// Provider facts in effect.
    pub closed spec fn spec_provider(self) -> ProviderOperationCapabilities {
        self.provider
    }

    /// Whether every application feature is marked not implemented.
    #[verifier::type_invariant]
    pub closed spec fn resolved_application(self) -> bool {
        &&& self.compaction_reporting == CompactionReportingCapability::UnsupportedNotImplemented
        &&& self.model_switch_reporting == ModelSwitchReportingCapability::UnsupportedNotImplemented
        &&& self.permission_deferral == PermissionDeferralCapability::UnsupportedNotImplemented
        &&& self.pre_tool_policy == PreToolPolicyCapability::UnsupportedNotImplemented
        &&& self.policy_end_turn == PolicyEndTurnCapability::UnsupportedNotImplemented
        &&& self.policy_close_session == PolicyCloseSessionCapability::UnsupportedNotImplemented
        &&& self.incoming_elicitation == IncomingElicitationCapability::UnsupportedNotImplemented
    }

    /// Resolves published provider facts into effective operations.
    pub fn resolve(provider: ProviderOperationCapabilities) -> (r: Self)
        ensures
            r.spec_provider() == effective_provider(provider),
            r.resolved_application(),
    {
        let provider = if provider.negotiated {
            provider
        } else {
            ProviderOperationCapabilities {
                permission_denial: PermissionDenialCapability::Unknown,
                native_hook_suppression: NativeHookSuppressionCapability::Unknown,
                compaction_reporting: ProviderCompactionReportingCapability::Unknown,
                model_switch_reporting: ProviderModelSwitchReportingCapability::Unknown,
                permission_deferral: ProviderPermissionDeferralCapability::Unknown,
                elicitation_forwarding: ElicitationForwardingCapability::Unknown,
                ..provider
            }
        };
        OperationCapabilities {
            provider,
            compaction_reporting: CompactionReportingCapability::UnsupportedNotImplemented,
            model_switch_reporting: ModelSwitchReportingCapability::UnsupportedNotImplemented,
            permission_deferral: PermissionDeferralCapability::UnsupportedNotImplemented,
            pre_tool_policy: PreToolPolicyCapability::UnsupportedNotImplemented,
            policy_end_turn: PolicyEndTurnCapability::UnsupportedNotImplemented,
            policy_close_session: PolicyCloseSessionCapability::UnsupportedNotImplemented,
            incoming_elicitation: IncomingElicitationCapability::UnsupportedNotImplemented,
        }
    }


    /// Whether provider facts come from a completed negotiation.
    pub fn negotiated(self) -> (r: bool)
        ensures
            r == self.spec_provider().negotiated,
    {
        self.provider.negotiated
    }

    /// Whether input can be injected into an identified active invocation.
    pub fn native_steering(self) -> (r: bool)
        ensures
            r == self.spec_provider().native_steering,
    {
        self.provider.native_steering
    }

    /// Whether the same context can be restored after the connection closes.
    pub fn session_resume(self) -> (r: bool)
        ensures
            r == self.spec_provider().session_resume,
    {
        self.provider.session_resume
    }

    /// Whether this connection can deliver a message's images.
    pub fn image_input(self) -> (r: bool)
        ensures
            r == self.spec_provider().image_input,
    {
        self.provider.image_input
    }

    /// The provider's scoped permission-denial fact.
    pub fn permission_denial(self) -> (r: PermissionDenialCapability)
        ensures
            r == self.spec_provider().permission_denial,
    {
        self.provider.permission_denial
    }

    /// The native hook suppression fact.
    pub fn native_hook_suppression(self) -> (r: NativeHookSuppressionCapability)
        ensures
            r == self.spec_provider().native_hook_suppression,
    {
        self.provider.native_hook_suppression
    }

    /// Effective compaction reporting; not implemented.
    pub fn compaction_reporting(self) -> (r: CompactionReportingCapability)
        ensures
            r == CompactionReportingCapability::UnsupportedNotImplemented,
    {
        proof {
            use_type_invariant(&self);
        }
        self.compaction_reporting
    }

    /// Effective model-switch reporting; not implemented.
    pub fn model_switch_reporting(self) -> (r: ModelSwitchReportingCapability)
        ensures
            r == ModelSwitchReportingCapability::UnsupportedNotImplemented,
    {
        proof {
            use_type_invariant(&self);
        }
        self.model_switch_reporting
    }

    /// Effective permission deferral; not implemented.
    pub fn permission_deferral(self) -> (r: PermissionDeferralCapability)
        ensures
            r == PermissionDeferralCapability::UnsupportedNotImplemented,
    {
        proof {
            use_type_invariant(&self);
        }
        self.permission_deferral
    }

    /// The provider's elicitation forwarding fact.
    pub fn elicitation_forwarding(self) -> (r: ElicitationForwardingCapability)
        ensures
            r == self.spec_provider().elicitation_forwarding,
    {
        self.provider.elicitation_forwarding
    }

    /// Effective pre-tool policy; not implemented.
    pub fn pre_tool_policy(self) -> (r: PreToolPolicyCapability)
        ensures
            r == PreToolPolicyCapability::UnsupportedNotImplemented,
    {
        proof {
            use_type_invariant(&self);
        }
        self.pre_tool_policy
    }

    /// Effective policy end-turn; not implemented.
    pub fn policy_end_turn(self) -> (r: PolicyEndTurnCapability)
        ensures
            r == PolicyEndTurnCapability::UnsupportedNotImplemented,
    {
        proof {
            use_type_invariant(&self);
        }
        self.policy_end_turn
    }

    /// Effective policy session close; not implemented.
    pub fn policy_close_session(self) -> (r: PolicyCloseSessionCapability)
        ensures
            r == PolicyCloseSessionCapability::UnsupportedNotImplemented,
    {
        proof {
            use_type_invariant(&self);
        }
        self.policy_close_session
    }

    /// Effective incoming elicitation; not implemented.
    pub fn incoming_elicitation(self) -> (r: IncomingElicitationCapability)
        ensures
            r == IncomingElicitationCapability::UnsupportedNotImplemented,
    {
        proof {
            use_type_invariant(&self);
        }
        self.incoming_elicitation
    }
}

} // verus!
