//! Questions the agent asks, the answers a host may give, and why asks end.
use super::error::ExecutionError;
use vstd::prelude::*;

verus! {

/// One choice a question offers.
#[derive(Debug, PartialEq, Eq)]
pub struct QuestionChoice {
    /// Text of the choice.
    pub label: String,
}

impl Clone for QuestionChoice {
    fn clone(&self) -> (r: Self)
        ensures
            r == *self,
    {
        QuestionChoice { label: self.label.clone() }
    }
}

/// A question the agent asks the host, with the choices it accepts.
#[derive(Debug, PartialEq, Eq)]
pub struct AgentQuestion {
    /// Question text.
    pub prompt: String,
    /// Offered choices.
    pub choices: Vec<QuestionChoice>,
    /// Whether more than one choice may be chosen.
    pub multiple: bool,
}

/// Mathematical value of an [`AgentQuestion`].
pub struct AgentQuestionView {
    /// Question text.
    pub prompt: String,
    /// Offered choices.
    pub choices: Seq<QuestionChoice>,
    /// Whether more than one choice may be chosen.
    pub multiple: bool,
}

impl View for AgentQuestion {
    type V = AgentQuestionView;

    open spec fn view(&self) -> AgentQuestionView {
        AgentQuestionView { prompt: self.prompt, choices: self.choices@, multiple: self.multiple }
    }
}

fn clone_choices(v: &Vec<QuestionChoice>) -> (r: Vec<QuestionChoice>)
    ensures
        r@ == v@,
{
    let mut r: Vec<QuestionChoice> = Vec::new();
    let mut i: usize = 0;
    while i < v.len()
        invariant
            i <= v.len(),
            r@ == v@.take(i as int),
        decreases v.len() - i,
    {
        r.push(v[i].clone());
        assert(v@.take(i + 1) == v@.take(i as int).push(v@[i as int]));
        i = i + 1;
    }
    assert(v@.take(v.len() as int) == v@);
    r
}

impl Clone for AgentQuestion {
    fn clone(&self) -> (r: Self)
        ensures
            r@ == self@,
    {
        AgentQuestion { prompt: self.prompt.clone(), choices: clone_choices(&self.choices), multiple: self.multiple }
    }
}

/// Whether `c` is among the offered `choices`, compared by text.
pub open spec fn offered(choices: Seq<QuestionChoice>, c: QuestionChoice) -> bool {
    exists|j: int| 0 <= j < choices.len() && #[trigger] choices[j].label@ == c.label@
}

/// Whether `chosen` is an acceptable answer to `q`: nonempty, every choice offered,
/// no choice repeated, and a single choice unless `q` allows several.
pub open spec fn acceptable(q: AgentQuestionView, chosen: Seq<QuestionChoice>) -> bool {
    &&& chosen.len() > 0
    &&& (q.multiple || chosen.len() == 1)
    &&& forall|i: int| 0 <= i < chosen.len() ==> offered(q.choices, #[trigger] chosen[i])
    &&& forall|i: int, j: int|
        0 <= i < chosen.len() && 0 <= j < chosen.len() && i != j ==> #[trigger] chosen[i].label@
            != #[trigger] chosen[j].label@
}

/// Choices accepted as an answer to one question.
#[derive(Debug, PartialEq, Eq)]
pub struct AcceptedAnswer {
    choices: Vec<QuestionChoice>,
}

impl AcceptedAnswer {
    /// Accepted choices.
    pub closed spec fn spec_choices(self) -> Seq<QuestionChoice> {
        self.choices@
    }

    /// Accepts `choices` as an answer to `question`, else InvalidAnswer.
    pub fn new(question: &AgentQuestion, choices: Vec<QuestionChoice>) -> (r: Result<Self, ExecutionError>)
        ensures
            r is Ok <==> acceptable(question@, choices@),
            r matches Ok(a) ==> a.spec_choices() == choices@,
            r matches Err(e) ==> e == ExecutionError::InvalidAnswer,
    {
        if choices.len() == 0 || (!question.multiple && choices.len() != 1) {
            return Err(ExecutionError::InvalidAnswer);
        }
        let mut i: usize = 0;
        while i < choices.len()
            invariant
                i <= choices.len(),
                forall|a: int| 0 <= a < i ==> offered(question@.choices, #[trigger] choices@[a]),
                forall|a: int, b: int|
                    0 <= a < i && 0 <= b < choices@.len() && a != b ==> #[trigger] choices@[a].label@
                        != #[trigger] choices@[b].label@,
            decreases choices.len() - i,
        {
            let mut found = false;
            let mut j: usize = 0;
            while j < question.choices.len()
                invariant
                    i < choices.len(),
                    j <= question.choices.len(),
                    found ==> offered(question@.choices, choices@[i as int]),
                    !found ==> forall|b: int| 0 <= b < j ==> #[trigger] question.choices@[b].label@ != choices@[i as int].label@,
                decreases question.choices.len() - j,
            {
                if question.choices[j].label == choices[i].label {
                    assert(question@.choices[j as int].label@ == choices@[i as int].label@);
                    found = true;
                }
                j = j + 1;
            }
            if !found {
                assert(!offered(question@.choices, choices@[i as int]));
                return Err(ExecutionError::InvalidAnswer);
            }
            let mut k: usize = 0;
            while k < choices.len()
                invariant
                    i < choices.len(),
                    k <= choices.len(),
                    forall|b: int| 0 <= b < k && b != i ==> choices@[i as int].label@ != #[trigger] choices@[b].label@,
                decreases choices.len() - k,
            {
                if k != i && choices[k].label == choices[i].label {
                    assert(choices@[k as int].label@ == choices@[i as int].label@);
                    return Err(ExecutionError::InvalidAnswer);
                }
                k = k + 1;
            }
            i = i + 1;
        }
        Ok(AcceptedAnswer { choices })
    }

    /// Accepted choices.
    pub fn choices(&self) -> (r: &[QuestionChoice])
        ensures
            r@ == self.spec_choices(),
    {
        self.choices.as_slice()
    }
}

/// Why an ask ended without an answer.
#[derive(Clone, Copy, Debug, PartialEq, Eq, Structural)]
pub enum QuestionCancellation {
    /// The agent withdrew it.
    Withdrawn,
    /// Its execution finished.
    ExecutionFinished,
    /// The session closed.
    SessionClosed,
}

/// How an ask was resolved.
#[derive(Debug, PartialEq, Eq)]
pub enum QuestionResponse {
    /// Answered with accepted choices.
    Answered(AcceptedAnswer),
    /// Answered with nothing.
    Declined,
    /// Ended without an answer.
    Cancelled(QuestionCancellation),
}

/// Why an ask was refused before it was offered.
#[derive(Clone, Copy, Debug, PartialEq, Eq, Structural)]
pub enum QuestionRefusalReason {
    /// Too many asks are open.
    TooManyOpen,
    /// The ask would exceed the open-ask budget.
    TooLarge,
    /// The ask reuses an open identity.
    Duplicate,
    /// The ask is malformed.
    Malformed,
}

} // verus!
