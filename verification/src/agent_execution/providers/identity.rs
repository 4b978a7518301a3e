//! The stable, bounded identity a saved history is resumed against.
use crate::agent_execution::agents::AgentError;
use crate::text::{blen, has_char, has_control};
use vstd::prelude::*;

verus! {

/// Largest UTF-8 byte length of the provider implementation discriminator.
pub const MAX_NAME_BYTES: usize = 256;

/// Largest UTF-8 byte length of the exact model selection.
pub const MAX_MODEL_ID_BYTES: usize = 256;

/// Largest UTF-8 byte length of the credential-free context description.
pub const MAX_CONTEXT_BYTES: usize = 4096;

/// Whether `s` may name a provider or a model: nonempty, within `limit` bytes,
/// without NUL or any control character.
pub open spec fn valid_label(s: Seq<char>, limit: usize) -> bool {
    &&& blen(s) <= limit
    &&& s.len() > 0
    &&& !has_char(s, '\0')
    &&& !has_control(s)
}

/// Whether `s` may describe a context: within 4 KiB, without NUL; it may be empty.
pub open spec fn valid_context(s: Seq<char>) -> bool {
    blen(s) <= MAX_CONTEXT_BYTES && !has_char(s, '\0')
}

/// Resume identity: provider, exact model and context, compared exactly before
/// saved history is attached.
#[derive(Debug, PartialEq, Eq)]
pub struct ProviderIdentity {
    name: String,
    model_id: String,
    context: String,
}

impl Clone for ProviderIdentity {
    fn clone(&self) -> (r: Self)
        ensures
            r == *self,
    {
        ProviderIdentity { name: self.name.clone(), model_id: self.model_id.clone(), context: self.context.clone() }
    }
}

fn label_ok(s: &str, limit: usize) -> (r: bool)
    ensures
        r == valid_label(s@, limit),
{
    crate::text::str_len(s) <= limit && s.unicode_len() > 0 && !crate::text::contains_char(s, '\0')
        && !crate::text::contains_control(s)
}

impl ProviderIdentity {
    /// Provider discriminator.
    pub closed spec fn spec_name(self) -> Seq<char> {
        self.name@
    }

    /// Exact model.
    pub closed spec fn spec_model_id(self) -> Seq<char> {
        self.model_id@
    }

    /// Context description.
    pub closed spec fn spec_context(self) -> Seq<char> {
        self.context@
    }

    /// Validates and keeps the three components, unchanged: `name` and `model_id`
    /// nonempty, within 256 bytes, without control characters; `context` within
    /// 4096 bytes and without NUL. A violation is Configuration naming the component.
    pub fn new(name: &str, model_id: &str, context: &str) -> (r: Result<Self, AgentError>)
        ensures
            r is Ok <==> valid_label(name@, MAX_NAME_BYTES) && valid_label(model_id@, MAX_MODEL_ID_BYTES)
                && valid_context(context@),
            r matches Ok(i) ==> i.spec_name() == name@ && i.spec_model_id() == model_id@ && i.spec_context()
                == context@,
            r matches Err(e) ==> e is Configuration,
    {
        if !label_ok(name, MAX_NAME_BYTES) {
            return Err(AgentError::Configuration("invalid provider identity name".to_owned()));
        }
        if !label_ok(model_id, MAX_MODEL_ID_BYTES) {
            return Err(AgentError::Configuration("invalid provider identity model_id".to_owned()));
        }
        if crate::text::str_len(context) > MAX_CONTEXT_BYTES || crate::text::contains_char(context, '\0') {
            return Err(AgentError::Configuration("invalid provider identity context".to_owned()));
        }
        Ok(ProviderIdentity { name: name.to_owned(), model_id: model_id.to_owned(), context: context.to_owned() })
    }

    /// The exact provider implementation discriminator.
    pub fn name(&self) -> (r: &str)
        ensures
            r@ == self.spec_name(),
    {
        self.name.as_str()
    }

    /// The exact selected model identifier.
    pub fn model_id(&self) -> (r: &str)
        ensures
            r@ == self.spec_model_id(),
    {
        self.model_id.as_str()
    }

    /// The exact credential-free context description.
    pub fn context(&self) -> (r: &str)
        ensures
            r@ == self.spec_context(),
    {
        self.context.as_str()
    }
}

} // verus!
