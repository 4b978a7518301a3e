//! Shared identity, chunk, and cumulative observation admission for live and restored evidence.
use crate::agent_execution::agents::AgentError;
use super::events::{event_bytes, ExecutionEvent};
use crate::domain::executions::{chunk_bytes, MessageChunk};
use crate::sums::seq_sum;
use crate::text::{blen, str_len};
use vstd::prelude::*;

verus! {

/// Largest UTF-8 byte length of an execution-scoped observation identity.
pub const MAX_OBSERVATION_ID_BYTES: usize = 256;

/// Largest retained text or thought fragment (4 MiB).
pub const MAX_MESSAGE_CHUNK_BYTES: usize = 4194304;

/// Largest retained bytes of one invocation's observations (128 MiB).
pub const MAX_RETAINED_OUTPUT_BYTES: usize = 134217728;

/// Largest number of retained observations of one invocation.
pub const MAX_RETAINED_OUTPUT_EVENTS: usize = 262144;

/// Whether an identity fits the observation limit.
pub open spec fn id_fits(id: Seq<char>) -> bool {
    blen(id) <= MAX_OBSERVATION_ID_BYTES
}

/// Refuses, with InvalidInput, an identity longer than 256 UTF-8 bytes.
pub fn validate_observation_id(id: &str) -> (r: Result<(), AgentError>)
    ensures
        r is Ok <==> id_fits(id@),
        r matches Err(e) ==> e is InvalidInput,
{
    if str_len(id) > MAX_OBSERVATION_ID_BYTES {
        return Err(AgentError::InvalidInput("execution identity exceeds binding limit".to_owned()));
    }
    Ok(())
}

/// Refuses, with Protocol, a fragment larger than 4 MiB.
pub fn validate_message_chunk(chunk: &MessageChunk) -> (r: Result<(), AgentError>)
    ensures
        r is Ok <==> chunk_bytes(*chunk) <= MAX_MESSAGE_CHUNK_BYTES,
        r matches Err(e) ==> e is Protocol,
{
    if chunk.payload_bytes() > MAX_MESSAGE_CHUNK_BYTES {
        return Err(AgentError::Protocol("message chunk exceeds the 4 MiB retained-byte limit".to_owned()));
    }
    Ok(())
}

/// Bytes retained by the events `s`, each counted as [`ExecutionEvent::retained_bytes`].
pub open spec fn events_bytes(s: Seq<ExecutionEvent>) -> int {
    seq_sum(s, |e: ExecutionEvent| event_bytes(e@) as int)
}

/// Retained bytes and number of one invocation's observations, within 128 MiB and
/// 262,144 events.
#[derive(Clone, Copy, Debug)]
pub struct ObservationUsage {
    bytes: usize,
    count: usize,
}

impl ObservationUsage {
    /// Usage stays within both limits.
    #[verifier::type_invariant]
    pub closed spec fn within_limits(self) -> bool {
        self.bytes <= MAX_RETAINED_OUTPUT_BYTES && self.count <= MAX_RETAINED_OUTPUT_EVENTS
    }

    /// Retained bytes.
    pub closed spec fn spec_bytes(self) -> int {
        self.bytes as int
    }

    /// Number of observations.
    pub closed spec fn spec_count(self) -> int {
        self.count as int
    }

    /// No observation retained.
    pub fn empty() -> (r: Self)
        ensures
            r.spec_bytes() == 0,
            r.spec_count() == 0,
    {
        ObservationUsage { bytes: 0, count: 0 }
    }

    /// Usage after also retaining `event`; OutputRetentionLimit when that would
    /// exceed 128 MiB or 262,144 events.
    pub fn with_event(self, event: &ExecutionEvent) -> (r: Result<Self, AgentError>)
        ensures
            r is Ok <==> self.spec_bytes() + event_bytes(event@) <= MAX_RETAINED_OUTPUT_BYTES && self.spec_count() + 1
                <= MAX_RETAINED_OUTPUT_EVENTS,
            r matches Ok(u) ==> u.spec_bytes() == self.spec_bytes() + event_bytes(event@) && u.spec_count()
                == self.spec_count() + 1,
            r matches Err(e) ==> e is OutputRetentionLimit,
    {
        proof {
            use_type_invariant(&self);
        }
        let bytes = self.bytes.saturating_add(event.retained_bytes());
        let count = self.count + 1;
        if bytes > MAX_RETAINED_OUTPUT_BYTES || count > MAX_RETAINED_OUTPUT_EVENTS {
            return Err(AgentError::OutputRetentionLimit);
        }
        Ok(ObservationUsage { bytes, count })
    }

    /// Usage of `events`; OutputRetentionLimit when they exceed 128 MiB or 262,144
    /// events.
    pub fn from_events(events: &Vec<ExecutionEvent>) -> (r: Result<Self, AgentError>)
        ensures
            r is Ok <==> events_bytes(events@) <= MAX_RETAINED_OUTPUT_BYTES && events@.len() <= MAX_RETAINED_OUTPUT_EVENTS,
            r matches Ok(u) ==> u.spec_bytes() == events_bytes(events@) && u.spec_count() == events@.len(),
            r matches Err(e) ==> e is OutputRetentionLimit,
    {
        let mut usage = Self::empty();
        let mut i: usize = 0;
        while i < events.len()
            invariant
                i <= events@.len(),
                usage.spec_bytes() == events_bytes(events@.take(i as int)),
                usage.spec_count() == i,
            decreases events@.len() - i,
        {
            proof {
                assert(events@.take(i + 1).drop_last() == events@.take(i as int));
            }
            match usage.with_event(&events[i]) {
                Ok(next) => usage = next,
                Err(e) => {
                    proof {
                        lemma_events_prefix(events@, i + 1);
                    }
                    return Err(e);
                },
            }
            i = i + 1;
        }
        proof {
            assert(events@.take(events@.len() as int) == events@);
            use_type_invariant(&usage);
        }
        Ok(usage)
    }
}

proof fn lemma_events_prefix(s: Seq<ExecutionEvent>, i: int)
    requires
        0 <= i <= s.len(),
    ensures
        events_bytes(s.take(i)) <= events_bytes(s),
    decreases s.len(),
{
    if i < s.len() {
        lemma_events_prefix(s.drop_last(), i);
        assert(s.drop_last().take(i) == s.take(i));
    } else {
        assert(s.take(i) == s);
    }
}

} // verus!
