use crate::agent_execution::agents::AgentError;
use crate::agent_execution::tools::ToolReviewInput;
use crate::domain::ids::ExecutionSessionId;
use crate::domain::permissions::{PermissionRequest, PermissionRequestView, PermissionStateView};
use crate::text::{blank, blen, is_blank, str_len};
use vstd::prelude::*;

verus! {

/// Largest UTF-8 byte length of each retained attribution identity.
pub const MAX_IDENTITY_BYTES: usize = 256;

/// Whether `s` is acceptable attribution text: not blank, and at most
/// [`MAX_IDENTITY_BYTES`] UTF-8 bytes.
pub open spec fn identity_ok(s: Seq<char>) -> bool {
    !is_blank(s) && blen(s) <= MAX_IDENTITY_BYTES
}

/// The message that refuses attribution text `value`: `blank` for blank text,
/// `long` for text over the byte bound.
pub open spec fn identity_refusal(value: Seq<char>, blank: Seq<char>, long: Seq<char>) -> Seq<char> {
    if is_blank(value) {
        blank
    } else {
        long
    }
}

fn required(value: &str, blank_message: &str, long_message: &str) -> (r: Result<String, AgentError>)
    ensures
        r is Ok <==> identity_ok(value@),
        r matches Ok(s) ==> s@ == value@,
        r matches Err(e) ==> e matches AgentError::InvalidInput(t) && t@ == identity_refusal(
            value@,
            blank_message@,
            long_message@,
        ),
{
    if blank(value) {
        return Err(AgentError::InvalidInput(blank_message.to_owned()));
    }
    if str_len(value) > MAX_IDENTITY_BYTES {
        return Err(AgentError::InvalidInput(long_message.to_owned()));
    }
    Ok(value.to_owned())
}

/// Attribution supplied by the authorizing host: principal, surface and logical
/// request. Construction validates structure, not identity or access.
#[derive(Debug, PartialEq, Eq)]
pub struct ActionContext {
    principal_id: String,
    surface_id: String,
    request_id: String,
}

impl Clone for ActionContext {
    fn clone(&self) -> (r: Self)
        ensures
            r == *self,
    {
        ActionContext {
            principal_id: self.principal_id.clone(),
            surface_id: self.surface_id.clone(),
            request_id: self.request_id.clone(),
        }
    }
}

/// Whether two contexts name the same principal, surface and request.
pub open spec fn same_context(a: ActionContext, b: ActionContext) -> bool {
    a.spec_principal() == b.spec_principal() && a.spec_surface() == b.spec_surface()
        && a.spec_request() == b.spec_request()
}

impl ActionContext {
    /// Largest UTF-8 byte length of each principal, surface, and request identity.
    pub const MAX_IDENTITY_BYTES: usize = 256;

    /// Verified principal.
    pub closed spec fn spec_principal(self) -> Seq<char> {
        self.principal_id@
    }

    /// Originating surface.
    pub closed spec fn spec_surface(self) -> Seq<char> {
        self.surface_id@
    }

    /// Logical request.
    pub closed spec fn spec_request(self) -> Seq<char> {
        self.request_id@
    }

    /// Retains the three identities exactly; each must hold non-whitespace text of at
    /// most 256 UTF-8 bytes, else InvalidInput.
    pub fn new(principal_id: &str, surface_id: &str, request_id: &str) -> (r: Result<Self, AgentError>)
        ensures
            r is Ok <==> identity_ok(principal_id@) && identity_ok(surface_id@) && identity_ok(request_id@),
            r matches Ok(c) ==> c.spec_principal() == principal_id@ && c.spec_surface() == surface_id@
                && c.spec_request() == request_id@,
            r matches Err(e) ==> e matches AgentError::InvalidInput(t) && t@ == if !identity_ok(principal_id@) {
                identity_refusal(principal_id@, "empty principal ID"@, "principal ID exceeds 256 UTF-8 bytes"@)
            } else if !identity_ok(surface_id@) {
                identity_refusal(surface_id@, "empty surface ID"@, "surface ID exceeds 256 UTF-8 bytes"@)
            } else {
                identity_refusal(
                    request_id@,
                    "empty action request ID"@,
                    "action request ID exceeds 256 UTF-8 bytes"@,
                )
            },
    {
        let principal_id = required(principal_id, "empty principal ID", "principal ID exceeds 256 UTF-8 bytes")?;
        let surface_id = required(surface_id, "empty surface ID", "surface ID exceeds 256 UTF-8 bytes")?;
        let request_id = required(request_id, "empty action request ID", "action request ID exceeds 256 UTF-8 bytes")?;
        Ok(ActionContext { principal_id, surface_id, request_id })
    }

    /// Whether both contexts name the same principal, surface and request.
    pub fn same(&self, other: &Self) -> (r: bool)
        ensures
            r == same_context(*self, *other),
    {
        self.principal_id == other.principal_id && self.surface_id == other.surface_id
            && self.request_id == other.request_id
    }

    /// Principal verified by the host.
    pub fn principal_id(&self) -> (r: &str)
        ensures
            r@ == self.spec_principal(),
    {
        self.principal_id.as_str()
    }

    /// Authorized surface from which the action originated.
    pub fn surface_id(&self) -> (r: &str)
        ensures
            r@ == self.spec_surface(),
    {
        self.surface_id.as_str()
    }

    /// Logical action identity.
    pub fn request_id(&self) -> (r: &str)
        ensures
            r@ == self.spec_request(),
    {
        self.request_id.as_str()
    }
}

/// The host's effective approval mode and configuration revision at decision time.
#[derive(Debug, PartialEq, Eq)]
pub struct ApprovalModeSnapshot {
    name: String,
    configuration_revision: String,
}

impl Clone for ApprovalModeSnapshot {
    fn clone(&self) -> (r: Self)
        ensures
            r == *self,
    {
        ApprovalModeSnapshot { name: self.name.clone(), configuration_revision: self.configuration_revision.clone() }
    }
}

impl ApprovalModeSnapshot {
    /// Mode name.
    pub closed spec fn spec_name(self) -> Seq<char> {
        self.name@
    }

    /// Configuration revision.
    pub closed spec fn spec_revision(self) -> Seq<char> {
        self.configuration_revision@
    }

    /// Retains the mode name and revision; each must be nonblank and at most 256
    /// UTF-8 bytes, else InvalidInput naming the first refused field.
    pub fn new(name: &str, configuration_revision: &str) -> (r: Result<Self, AgentError>)
        ensures
            r is Ok <==> identity_ok(name@) && identity_ok(configuration_revision@),
            r matches Ok(m) ==> m.spec_name() == name@ && m.spec_revision() == configuration_revision@,
            r matches Err(e) ==> e matches AgentError::InvalidInput(t) && t@ == if !identity_ok(name@) {
                identity_refusal(name@, "empty approval mode"@, "approval mode exceeds 256 UTF-8 bytes"@)
            } else {
                identity_refusal(
                    configuration_revision@,
                    "empty approval configuration revision"@,
                    "approval configuration revision exceeds 256 UTF-8 bytes"@,
                )
            },
    {
        let name = required(name, "empty approval mode", "approval mode exceeds 256 UTF-8 bytes")?;
        let configuration_revision = required(
            configuration_revision,
            "empty approval configuration revision",
            "approval configuration revision exceeds 256 UTF-8 bytes",
        )?;
        Ok(ApprovalModeSnapshot { name, configuration_revision })
    }

    /// Effective approval mode.
    pub fn name(&self) -> (r: &str)
        ensures
            r@ == self.spec_name(),
    {
        self.name.as_str()
    }

    /// Configuration revision that determined the mode.
    pub fn configuration_revision(&self) -> (r: &str)
        ensures
            r@ == self.spec_revision(),
    {
        self.configuration_revision.as_str()
    }
}

/// The exact rule revision the host evaluated and who granted it.
#[derive(Debug, PartialEq, Eq)]
pub struct ApprovalRuleReference {
    rule_id: String,
    revision: String,
    granted_by: ActionContext,
}

impl Clone for ApprovalRuleReference {
    fn clone(&self) -> (r: Self)
        ensures
            r == *self,
    {
        ApprovalRuleReference {
            rule_id: self.rule_id.clone(),
            revision: self.revision.clone(),
            granted_by: self.granted_by.clone(),
        }
    }
}

impl ApprovalRuleReference {
    /// Rule identity.
    pub closed spec fn spec_rule_id(self) -> Seq<char> {
        self.rule_id@
    }

    /// Rule revision.
    pub closed spec fn spec_revision(self) -> Seq<char> {
        self.revision@
    }

    /// Grant attribution.
    pub closed spec fn spec_granted_by(self) -> ActionContext {
        self.granted_by
    }

    /// References a rule revision; rule identity and revision must be nonblank and at
    /// most 256 UTF-8 bytes, else InvalidInput.
    pub fn new(rule_id: &str, revision: &str, granted_by: ActionContext) -> (r: Result<Self, AgentError>)
        ensures
            r is Ok <==> identity_ok(rule_id@) && identity_ok(revision@),
            r matches Ok(x) ==> x.spec_rule_id() == rule_id@ && x.spec_revision() == revision@
                && x.spec_granted_by() == granted_by,
            r matches Err(e) ==> e matches AgentError::InvalidInput(t) && t@ == if !identity_ok(rule_id@) {
                identity_refusal(rule_id@, "empty approval rule ID"@, "approval rule ID exceeds 256 UTF-8 bytes"@)
            } else {
                identity_refusal(
                    revision@,
                    "empty approval rule revision"@,
                    "approval rule revision exceeds 256 UTF-8 bytes"@,
                )
            },
    {
        let rule_id = required(rule_id, "empty approval rule ID", "approval rule ID exceeds 256 UTF-8 bytes")?;
        let revision = required(revision, "empty approval rule revision", "approval rule revision exceeds 256 UTF-8 bytes")?;
        Ok(ApprovalRuleReference { rule_id, revision, granted_by })
    }

    /// Rule evaluated by the host.
    pub fn rule_id(&self) -> (r: &str)
        ensures
            r@ == self.spec_rule_id(),
    {
        self.rule_id.as_str()
    }

    /// Evaluated rule revision.
    pub fn revision(&self) -> (r: &str)
        ensures
            r@ == self.spec_revision(),
    {
        self.revision.as_str()
    }

    /// Actor and request that granted the rule.
    pub fn granted_by(&self) -> (r: &ActionContext)
        ensures
            *r == self.spec_granted_by(),
    {
        &self.granted_by
    }
}

/// Why an answer was selected.
#[derive(Debug, PartialEq, Eq)]
pub enum ApprovalBasis {
    /// A verified actor explicitly selected the option.
    Explicit,
    /// The host's effective mode selected the option.
    Mode(ApprovalModeSnapshot),
    /// An identified rule revision selected the option.
    Rule(ApprovalRuleReference),
}

impl Clone for ApprovalBasis {
    fn clone(&self) -> (r: Self)
        ensures
            r == *self,
    {
        match self {
            ApprovalBasis::Explicit => ApprovalBasis::Explicit,
            ApprovalBasis::Mode(m) => ApprovalBasis::Mode(m.clone()),
            ApprovalBasis::Rule(x) => ApprovalBasis::Rule(x.clone()),
        }
    }
}

/// Who answered and why.
#[derive(Debug, PartialEq, Eq)]
pub struct ApprovalAttribution {
    actor: ActionContext,
    basis: ApprovalBasis,
}

impl Clone for ApprovalAttribution {
    fn clone(&self) -> (r: Self)
        ensures
            r == *self,
    {
        ApprovalAttribution { actor: self.actor.clone(), basis: self.basis.clone() }
    }
}

impl ApprovalAttribution {
    /// Answering actor.
    pub closed spec fn spec_actor(self) -> ActionContext {
        self.actor
    }

    /// Decision basis.
    pub closed spec fn spec_basis(self) -> ApprovalBasis {
        self.basis
    }

    /// Pairs the answering actor with the decision basis, unchanged.
    pub fn new(actor: ActionContext, basis: ApprovalBasis) -> (r: Self)
        ensures
            r.spec_actor() == actor,
            r.spec_basis() == basis,
    {
        ApprovalAttribution { actor, basis }
    }

    /// Answering actor.
    pub fn actor(&self) -> (r: &ActionContext)
        ensures
            *r == self.spec_actor(),
    {
        &self.actor
    }

    /// Decision basis.
    pub fn basis(&self) -> (r: &ApprovalBasis)
        ensures
            *r == self.spec_basis(),
    {
        &self.basis
    }
}

/// A resolved review: owning session, answered request, reviewed input, and attribution.
#[derive(Debug, PartialEq, Eq)]
pub struct PermissionResolution {
    session_id: ExecutionSessionId,
    request: PermissionRequest,
    input: ToolReviewInput,
    attribution: ApprovalAttribution,
}

impl Clone for PermissionResolution {
    fn clone(&self) -> (r: Self)
        ensures
            r.spec_session_id() == self.spec_session_id(),
            r.spec_request() == self.spec_request(),
            r.spec_input() == self.spec_input(),
            r.spec_attribution() == self.spec_attribution(),
    {
        PermissionResolution {
            session_id: self.session_id.clone(),
            request: self.request.clone(),
            input: self.input.clone(),
            attribution: self.attribution.clone(),
        }
    }
}

impl PermissionResolution {
    /// Owning provider context.
    pub closed spec fn spec_session_id(self) -> ExecutionSessionId {
        self.session_id
    }

    /// The answered review.
    pub closed spec fn spec_request(self) -> PermissionRequestView {
        self.request@
    }

    /// The reviewed input.
    pub closed spec fn spec_input(self) -> ToolReviewInput {
        self.input
    }

    /// Who answered and why.
    pub closed spec fn spec_attribution(self) -> ApprovalAttribution {
        self.attribution
    }

    /// Pairs an answered `request` with its session, reviewed input and attribution;
    /// a request that is not answered is refused with InvalidInput.
    pub fn new(
        session_id: ExecutionSessionId,
        request: PermissionRequest,
        input: ToolReviewInput,
        attribution: ApprovalAttribution,
    ) -> (r: Result<Self, AgentError>)
        ensures
            r is Ok <==> request@.state is Answered,
            r matches Ok(x) ==> x.spec_session_id() == session_id && x.spec_request() == request@
                && x.spec_input() == input && x.spec_attribution() == attribution,
            r matches Err(e) ==> e matches AgentError::InvalidInput(t) && t@
                == "permission must be answered before attribution is recorded"@,
    {
        match request.state() {
            PermissionStateView::Answered { .. } => {},
            _ => {
                return Err(
                    AgentError::InvalidInput(
                        "permission must be answered before attribution is recorded".to_owned(),
                    ),
                )
            },
        }
        Ok(PermissionResolution { session_id, request, input, attribution })
    }

    /// Provider context of the controller that resolved the review.
    pub fn session_id(&self) -> (r: &ExecutionSessionId)
        ensures
            *r == self.spec_session_id(),
    {
        &self.session_id
    }

    /// The answered review, with its chosen option.
    pub fn request(&self) -> (r: &PermissionRequest)
        ensures
            r@ == self.spec_request(),
    {
        &self.request
    }

    /// Original tool input reviewed by the actor.
    pub fn input(&self) -> (r: &ToolReviewInput)
        ensures
            *r == self.spec_input(),
    {
        &self.input
    }

    /// Verified actor and decision basis.
    pub fn attribution(&self) -> (r: &ApprovalAttribution)
        ensures
            *r == self.spec_attribution(),
    {
        &self.attribution
    }
}

} // verus!
