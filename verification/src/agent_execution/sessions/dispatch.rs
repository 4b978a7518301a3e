//! Which dispatched invocations may still deliver provider observations.
use crate::agent_execution::agents::AgentError;
use crate::agent_execution::providers::{ExecutionReport, ExecutionReportSource};
use crate::domain::executions::ExecutionOutcome;
use crate::domain::ids::ExecutionId;
use vstd::prelude::*;

verus! {

/// What a dispatched invocation may still deliver.
#[derive(Clone, Copy, Debug, PartialEq, Eq, Structural)]
pub enum ObservationAuthority {
    /// Any provider output.
    Output,
    /// Only permission-cancellation evidence, after its observation boundary.
    CancellationOnly,
}

/// The authority recorded for `key` in `s`, its latest entry winning.
pub open spec fn authority_in(s: Seq<(ExecutionId, ObservationAuthority)>, key: Seq<char>) -> Option<
    ObservationAuthority,
>
    decreases s.len(),
{
    if s.len() == 0 {
        None
    } else if s.last().0@ == key {
        Some(s.last().1)
    } else {
        authority_in(s.drop_last(), key)
    }
}

/// Whether no execution identity is recorded twice.
pub open spec fn distinct_keys(s: Seq<(ExecutionId, ObservationAuthority)>) -> bool {
    forall|i: int, j: int| 0 <= i < j < s.len() ==> s[i].0@ != s[j].0@
}

proof fn lemma_authority_at(s: Seq<(ExecutionId, ObservationAuthority)>, i: int, key: Seq<char>)
    requires
        distinct_keys(s),
        0 <= i < s.len(),
        s[i].0@ == key,
    ensures
        authority_in(s, key) == Some(s[i].1),
    decreases s.len(),
{
    if i < s.len() - 1 {
        assert(s.last().0@ != key);
        lemma_authority_at(s.drop_last(), i, key);
    }
}

proof fn lemma_authority_absent(s: Seq<(ExecutionId, ObservationAuthority)>, key: Seq<char>)
    requires
        forall|i: int| 0 <= i < s.len() ==> s[i].0@ != key,
    ensures
        authority_in(s, key) is None,
    decreases s.len(),
{
    if s.len() > 0 {
        lemma_authority_absent(s.drop_last(), key);
    }
}

proof fn lemma_authority_of(s: Seq<(ExecutionId, ObservationAuthority)>, key: Seq<char>)
    requires
        distinct_keys(s),
    ensures
        (exists|i: int| 0 <= i < s.len() && s[i].0@ == key) ==> authority_in(s, key) == Some(
            s[choose|i: int| 0 <= i < s.len() && s[i].0@ == key].1,
        ),
        !(exists|i: int| 0 <= i < s.len() && s[i].0@ == key) ==> authority_in(s, key) is None,
{
    if exists|i: int| 0 <= i < s.len() && s[i].0@ == key {
        let i = choose|i: int| 0 <= i < s.len() && s[i].0@ == key;
        lemma_authority_at(s, i, key);
    } else {
        lemma_authority_absent(s, key);
    }
}

/// The observation authority of each dispatched invocation.
#[derive(Debug)]
pub struct DispatchRegistry {
    entries: Vec<(ExecutionId, ObservationAuthority)>,
}

impl DispatchRegistry {
    /// No identity is recorded twice.
    #[verifier::type_invariant]
    closed spec fn distinct(self) -> bool {
        distinct_keys(self.entries@)
    }

    /// Authority recorded for the execution identified by `key`.
    pub closed spec fn authority(self, key: Seq<char>) -> Option<ObservationAuthority> {
        authority_in(self.entries@, key)
    }

    /// Nothing dispatched.
    pub fn new() -> (r: Self)
        ensures
            forall|k: Seq<char>| r.authority(k) is None,
    {
        DispatchRegistry { entries: Vec::new() }
    }

    fn find(&self, id: &ExecutionId) -> (r: Option<usize>)
        ensures
            r matches Some(i) ==> i < self.entries@.len() && self.entries@[i as int].0@ == id@,
            r is None ==> forall|i: int| 0 <= i < self.entries@.len() ==> self.entries@[i].0@ != id@,
    {
        let mut i: usize = 0;
        while i < self.entries.len()
            invariant
                i <= self.entries@.len(),
                forall|k: int| 0 <= k < i ==> self.entries@[k].0@ != id@,
            decreases self.entries.len() - i,
        {
            if self.entries[i].0.same(id) {
                return Some(i);
            }
            i = i + 1;
        }
        None
    }

    /// Grants `id` output authority immediately before its provider attempt is polled.
    pub fn begin_dispatch(&mut self, id: &ExecutionId)
        ensures
            forall|k: Seq<char>| #[trigger] final(self).authority(k) == if k == id@ {
                Some(ObservationAuthority::Output)
            } else {
                old(self).authority(k)
            },
    {
        proof {
            use_type_invariant(&*self);
        }
        let ghost before = self.entries@;
        match self.find(id) {
            Some(i) => {
                let mut entries = Vec::new();
                std::mem::swap(&mut entries, &mut self.entries);
                entries.set(i, (id.clone(), ObservationAuthority::Output));
                proof {
                    assert(distinct_keys(entries@)) by {
                        assert forall|a: int, b: int| 0 <= a < b < entries@.len() implies entries@[a].0@
                            != entries@[b].0@ by {
                            if a != i as int && b != i as int {
                                assert(entries@[a] == before[a] && entries@[b] == before[b]);
                            } else if a == i as int {
                                assert(entries@[b] == before[b]);
                            } else {
                                assert(entries@[a] == before[a]);
                            }
                        }
                    }
                    assert forall|k: Seq<char>| #[trigger] authority_in(entries@, k) == if k == id@ {
                        Some(ObservationAuthority::Output)
                    } else {
                        authority_in(before, k)
                    } by {
                        lemma_authority_of(entries@, k);
                        lemma_authority_of(before, k);
                        if k == id@ {
                            lemma_authority_at(entries@, i as int, k);
                        } else if exists|j: int| 0 <= j < before.len() && before[j].0@ == k {
                            let j = choose|j: int| 0 <= j < before.len() && before[j].0@ == k;
                            assert(j != i as int);
                            lemma_authority_at(entries@, j, k);
                            lemma_authority_at(before, j, k);
                        } else {
                            assert forall|j: int| 0 <= j < entries@.len() implies entries@[j].0@ != k by {
                                if j != i as int {
                                    assert(entries@[j] == before[j]);
                                }
                            }
                            lemma_authority_absent(entries@, k);
                        }
                    }
                }
                self.entries = entries;
            },
            None => {
                let mut entries = Vec::new();
                std::mem::swap(&mut entries, &mut self.entries);
                entries.push((id.clone(), ObservationAuthority::Output));
                proof {
                    assert(entries@.drop_last() == before);
                    assert forall|k: Seq<char>| #[trigger] authority_in(entries@, k) == if k == id@ {
                        Some(ObservationAuthority::Output)
                    } else {
                        authority_in(before, k)
                    } by {}
                }
                self.entries = entries;
            },
        }
    }

    /// Ends output authority of `id` at its observation boundary; only
    /// cancellation evidence may follow.
    pub fn retire_observations(&mut self, id: &ExecutionId)
        ensures
            forall|k: Seq<char>| #[trigger] final(self).authority(k) == if k == id@ && old(self).authority(k) is Some {
                Some(ObservationAuthority::CancellationOnly)
            } else {
                old(self).authority(k)
            },
    {
        proof {
            use_type_invariant(&*self);
        }
        let ghost before = self.entries@;
        if let Some(i) = self.find(id) {
            let mut entries = Vec::new();
            std::mem::swap(&mut entries, &mut self.entries);
            let key = entries[i].0.clone();
            entries.set(i, (key, ObservationAuthority::CancellationOnly));
            proof {
                assert(distinct_keys(entries@)) by {
                    assert forall|a: int, b: int| 0 <= a < b < entries@.len() implies entries@[a].0@
                        != entries@[b].0@ by {
                        if a != i as int && b != i as int {
                            assert(entries@[a] == before[a] && entries@[b] == before[b]);
                        } else if a == i as int {
                            assert(entries@[b] == before[b]);
                        } else {
                            assert(entries@[a] == before[a]);
                        }
                    }
                }
                assert forall|k: Seq<char>| #[trigger] authority_in(entries@, k) == if k == id@ && authority_in(
                    before,
                    k,
                ) is Some {
                    Some(ObservationAuthority::CancellationOnly)
                } else {
                    authority_in(before, k)
                } by {
                    if k == id@ {
                        lemma_authority_at(entries@, i as int, k);
                        lemma_authority_at(before, i as int, k);
                    } else if exists|j: int| 0 <= j < before.len() && before[j].0@ == k {
                        let j = choose|j: int| 0 <= j < before.len() && before[j].0@ == k;
                        assert(j != i as int);
                        lemma_authority_at(entries@, j, k);
                        lemma_authority_at(before, j, k);
                    } else {
                        assert forall|j: int| 0 <= j < entries@.len() implies entries@[j].0@ != k by {
                            if j != i as int {
                                assert(entries@[j] == before[j]);
                            }
                        }
                        lemma_authority_absent(entries@, k);
                        lemma_authority_absent(before, k);
                    }
                }
            }
            self.entries = entries;
        } else {
            proof {
                lemma_authority_absent(before, id@);
            }
        }
    }

    /// Forgets `id` after its provider refused admission: it may deliver nothing.
    pub fn reject_dispatch(&mut self, id: &ExecutionId)
        ensures
            forall|k: Seq<char>| #[trigger] final(self).authority(k) == if k == id@ {
                None
            } else {
                old(self).authority(k)
            },
    {
        proof {
            use_type_invariant(&*self);
        }
        let ghost before = self.entries@;
        if let Some(i) = self.find(id) {
            let mut entries = Vec::new();
            std::mem::swap(&mut entries, &mut self.entries);
            let _removed = entries.remove(i);
            proof {
                assert forall|j: int| 0 <= j < entries@.len() implies entries@[j] == before[if j < i { j } else {
                    j + 1
                }] by {}
                assert(distinct_keys(entries@)) by {
                    assert forall|a: int, b: int| 0 <= a < b < entries@.len() implies entries@[a].0@
                        != entries@[b].0@ by {
                        let x = if a < i { a } else { a + 1 };
                        let y = if b < i { b } else { b + 1 };
                        assert(entries@[a] == before[x] && entries@[b] == before[y]);
                    }
                }
                assert forall|k: Seq<char>| #[trigger] authority_in(entries@, k) == if k == id@ {
                    None
                } else {
                    authority_in(before, k)
                } by {
                    if k == id@ {
                        assert forall|j: int| 0 <= j < entries@.len() implies entries@[j].0@ != k by {
                            let x = if j < i { j } else { j + 1 };
                            assert(entries@[j] == before[x]);
                            assert(x != i as int);
                        }
                        lemma_authority_absent(entries@, k);
                    } else if exists|j: int| 0 <= j < before.len() && before[j].0@ == k {
                        let j = choose|j: int| 0 <= j < before.len() && before[j].0@ == k;
                        assert(j != i as int);
                        let y = if j < i { j } else { j - 1 };
                        assert(entries@[y] == before[j]);
                        lemma_authority_at(entries@, y, k);
                        lemma_authority_at(before, j, k);
                    } else {
                        assert forall|j: int| 0 <= j < entries@.len() implies entries@[j].0@ != k by {
                            let x = if j < i { j } else { j + 1 };
                            assert(entries@[j] == before[x]);
                        }
                        lemma_authority_absent(entries@, k);
                        lemma_authority_absent(before, k);
                    }
                }
            }
            self.entries = entries;
        } else {
            proof {
                assert forall|k: Seq<char>| #[trigger] authority_in(before, k) == if k == id@ {
                    None
                } else {
                    authority_in(before, k)
                } by {
                    if k == id@ {
                        lemma_authority_absent(before, k);
                    }
                }
            }
        }
    }

    /// Checks that an observation of `execution_id` may be delivered: output while
    /// its invocation owns output, permission-cancellation evidence after its
    /// boundary too; anything else breaks the protocol.
    pub fn validate_observation_owner(&self, execution_id: &ExecutionId, cancellation_evidence: bool) -> (r: Result<
        (),
        AgentError,
    >)
        ensures
            match self.authority(execution_id@) {
                Some(ObservationAuthority::Output) => r is Ok,
                Some(ObservationAuthority::CancellationOnly) => if cancellation_evidence {
                    r is Ok
                } else {
                    r matches Err(AgentError::Protocol(t)) && t@
                        == "provider output follows its invocation observation boundary"@
                },
                None => r matches Err(AgentError::Protocol(t)) && t@
                    == "provider observation targets an undispatched invocation"@,
            },
    {
        proof {
            use_type_invariant(self);
            reveal_strlit("provider output follows its invocation observation boundary");
            reveal_strlit("provider observation targets an undispatched invocation");
        }
        match self.find(execution_id) {
            Some(i) => {
                proof {
                    lemma_authority_at(self.entries@, i as int, execution_id@);
                }
                match self.entries[i].1 {
                    ObservationAuthority::Output => Ok(()),
                    ObservationAuthority::CancellationOnly => {
                        if cancellation_evidence {
                            Ok(())
                        } else {
                            Err(
                                AgentError::Protocol(
                                    "provider output follows its invocation observation boundary".to_string(),
                                ),
                            )
                        }
                    },
                }
            },
            None => {
                proof {
                    lemma_authority_absent(self.entries@, execution_id@);
                }
                Err(AgentError::Protocol("provider observation targets an undispatched invocation".to_string()))
            },
        }
    }
}

/// Whether saved facts prove an invocation was cancelled: a local cancellation
/// report, a provider-reported cancellation, or a cancelled local outcome or
/// result. Nested diagnostics never imply it.
pub open spec fn cancelled_by_facts(
    report: Option<ExecutionReport>,
    local_outcome: Option<ExecutionOutcome>,
    result: Option<Result<ExecutionOutcome, AgentError>>,
) -> bool {
    ||| report matches Some(r) && (r.spec_source() == ExecutionReportSource::LocalCancellation
        || r.spec_provider_result() == Some(Ok::<ExecutionOutcome, AgentError>(ExecutionOutcome::Cancelled)))
    ||| local_outcome == Some(ExecutionOutcome::Cancelled)
    ||| result == Some(Ok::<ExecutionOutcome, AgentError>(ExecutionOutcome::Cancelled))
}

/// Decides [`cancelled_by_facts`] for an invocation's saved record.
pub fn invocation_cancelled(
    report: Option<&ExecutionReport>,
    local_outcome: Option<ExecutionOutcome>,
    result: Option<&Result<ExecutionOutcome, AgentError>>,
) -> (r: bool)
    ensures
        r == cancelled_by_facts(
            match report {
                Some(x) => Some(*x),
                None => None,
            },
            local_outcome,
            match result {
                Some(x) => Some(*x),
                None => None,
            },
        ),
{
    let reported = match report {
        Some(settlement) => {
            matches!(settlement.source(), ExecutionReportSource::LocalCancellation) || match settlement.provider_result() {
                Some(Ok(ExecutionOutcome::Cancelled)) => true,
                _ => false,
            }
        },
        None => false,
    };
    let local = match local_outcome {
        Some(ExecutionOutcome::Cancelled) => true,
        _ => false,
    };
    let settled = match result {
        Some(Ok(ExecutionOutcome::Cancelled)) => true,
        _ => false,
    };
    reported || local || settled
}

} // verus!
