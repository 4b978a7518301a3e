use crate::text::{blen, sat, sat_add, text_len};
use vstd::prelude::*;

verus! {

/// Exact proposed tool action supplied for review and audit.
#[derive(Debug, PartialEq, Eq)]
pub struct ToolReviewInput {
    /// Tool name as the provider reported it.
    pub name: String,
    /// Provider arguments, unparsed.
    pub arguments_json: String,
}

impl Clone for ToolReviewInput {
    fn clone(&self) -> (r: Self)
        ensures
            r == *self,
    {
        ToolReviewInput { name: self.name.clone(), arguments_json: self.arguments_json.clone() }
    }
}

/// Retained bytes of a review input's text.
pub open spec fn input_bytes(i: ToolReviewInput) -> usize {
    sat(blen(i.name@) + blen(i.arguments_json@))
}

impl ToolReviewInput {
    /// Retained bytes of the name and arguments.
    pub fn payload_bytes(&self) -> (r: usize)
        ensures
            r == input_bytes(*self),
    {
        sat_add(text_len(&self.name), text_len(&self.arguments_json))
    }
}

} // verus!
