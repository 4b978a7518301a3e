//! Execution outcomes and streamed output fragments.
use crate::text::{blen, text_len};
use vstd::prelude::*;

verus! {

/// How a provider execution ended.
#[derive(Clone, Copy, Debug, PartialEq, Eq, Structural)]
pub enum ExecutionOutcome {
    /// The agent finished its turn.
    Completed,
    /// The output budget was exhausted.
    OutputLimit,
    /// The provider's request limit was reached.
    RequestLimit,
    /// The agent refused.
    Refused,
    /// The execution was cancelled.
    Cancelled,
}

/// One exact streamed fragment of agent output.
#[derive(Debug, PartialEq, Eq)]
pub enum MessageChunk {
    /// Visible text.
    Text(String),
    /// Reasoning text.
    Thought(String),
}

impl Clone for MessageChunk {
    fn clone(&self) -> (r: Self)
        ensures
            r == *self,
    {
        match self {
            MessageChunk::Text(t) => MessageChunk::Text(t.clone()),
            MessageChunk::Thought(t) => MessageChunk::Thought(t.clone()),
        }
    }
}

/// Retained bytes of a fragment's text.
pub open spec fn chunk_bytes(c: MessageChunk) -> usize {
    match c {
        MessageChunk::Text(t) => blen(t@),
        MessageChunk::Thought(t) => blen(t@),
    }
}

impl MessageChunk {
    /// Retained bytes of the fragment's text.
    pub fn payload_bytes(&self) -> (r: usize)
        ensures
            r == chunk_bytes(*self),
    {
        match self {
            MessageChunk::Text(t) => text_len(t),
            MessageChunk::Thought(t) => text_len(t),
        }
    }
}

} // verus!
