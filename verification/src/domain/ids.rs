//! Validated identities. Every identity is nonempty text and is compared by its text.
use super::error::ExecutionError;
use crate::text::{blen, text_len};
use vstd::prelude::*;

verus! {

/// Identity of one execution (one submitted input) within its session.
#[derive(Debug, PartialEq, Eq, Hash)]
pub struct ExecutionId {
    value: String,
}

impl View for ExecutionId {
    type V = Seq<char>;

    closed spec fn view(&self) -> Seq<char> {
        self.value@
    }
}

impl Clone for ExecutionId {
    fn clone(&self) -> (r: Self)
        ensures
            r == *self,
    {
        ExecutionId { value: self.value.clone() }
    }
}

impl ExecutionId {
    /// Takes `value` as the identity; empty text is refused.
    pub fn new(value: &str) -> (r: Result<Self, ExecutionError>)
        ensures
            r is Ok <==> value@.len() > 0,
            r matches Ok(id) ==> id@ == value@,
            r matches Err(e) ==> e == ExecutionError::EmptyIdentity,
    {
        if value.is_empty() {
            Err(ExecutionError::EmptyIdentity)
        } else {
            Ok(ExecutionId { value: value.to_owned() })
        }
    }

    /// The identity's exact text.
    pub fn as_str(&self) -> (r: &str)
        ensures
            r@ == self@,
    {
        self.value.as_str()
    }

    /// Whether both identities have the same text.
    pub fn same(&self, other: &Self) -> (r: bool)
        ensures
            r == (self@ == other@),
    {
        self.value == other.value
    }

    /// UTF-8 byte length of the identity.
    pub fn byte_len(&self) -> (r: usize)
        ensures
            r == blen(self@),
    {
        text_len(&self.value)
    }

}

/// Identity of the provider context that a live session attaches to.
#[derive(Debug, PartialEq, Eq, Hash)]
pub struct ExecutionSessionId {
    value: String,
}

impl View for ExecutionSessionId {
    type V = Seq<char>;

    closed spec fn view(&self) -> Seq<char> {
        self.value@
    }
}

impl Clone for ExecutionSessionId {
    fn clone(&self) -> (r: Self)
        ensures
            r == *self,
    {
        ExecutionSessionId { value: self.value.clone() }
    }
}

impl ExecutionSessionId {
    /// Takes `value` as the identity; empty text is refused.
    pub fn new(value: &str) -> (r: Result<Self, ExecutionError>)
        ensures
            r is Ok <==> value@.len() > 0,
            r matches Ok(id) ==> id@ == value@,
            r matches Err(e) ==> e == ExecutionError::EmptyIdentity,
    {
        if value.is_empty() {
            Err(ExecutionError::EmptyIdentity)
        } else {
            Ok(ExecutionSessionId { value: value.to_owned() })
        }
    }

    /// The identity's exact text.
    pub fn as_str(&self) -> (r: &str)
        ensures
            r@ == self@,
    {
        self.value.as_str()
    }

    /// Whether both identities have the same text.
    pub fn same(&self, other: &Self) -> (r: bool)
        ensures
            r == (self@ == other@),
    {
        self.value == other.value
    }

    /// UTF-8 byte length of the identity.
    pub fn byte_len(&self) -> (r: usize)
        ensures
            r == blen(self@),
    {
        text_len(&self.value)
    }

}

/// Identity of one locally owned session and its saved evidence.
#[derive(Debug, PartialEq, Eq, Hash)]
pub struct SessionId {
    value: String,
}

impl View for SessionId {
    type V = Seq<char>;

    closed spec fn view(&self) -> Seq<char> {
        self.value@
    }
}

impl Clone for SessionId {
    fn clone(&self) -> (r: Self)
        ensures
            r == *self,
    {
        SessionId { value: self.value.clone() }
    }
}

impl SessionId {
    /// Takes `value` as the identity; empty text is refused.
    pub fn new(value: &str) -> (r: Result<Self, ExecutionError>)
        ensures
            r is Ok <==> value@.len() > 0,
            r matches Ok(id) ==> id@ == value@,
            r matches Err(e) ==> e == ExecutionError::EmptyIdentity,
    {
        if value.is_empty() {
            Err(ExecutionError::EmptyIdentity)
        } else {
            Ok(SessionId { value: value.to_owned() })
        }
    }

    /// The identity's exact text.
    pub fn as_str(&self) -> (r: &str)
        ensures
            r@ == self@,
    {
        self.value.as_str()
    }

    /// Whether both identities have the same text.
    pub fn same(&self, other: &Self) -> (r: bool)
        ensures
            r == (self@ == other@),
    {
        self.value == other.value
    }

    /// UTF-8 byte length of the identity.
    pub fn byte_len(&self) -> (r: usize)
        ensures
            r == blen(self@),
    {
        text_len(&self.value)
    }

}

/// Identity of one permission review within its execution.
#[derive(Debug, PartialEq, Eq, Hash)]
pub struct PermissionId {
    value: String,
}

impl View for PermissionId {
    type V = Seq<char>;

    closed spec fn view(&self) -> Seq<char> {
        self.value@
    }
}

impl Clone for PermissionId {
    fn clone(&self) -> (r: Self)
        ensures
            r == *self,
    {
        PermissionId { value: self.value.clone() }
    }
}

impl PermissionId {
    /// Takes `value` as the identity; empty text is refused.
    pub fn new(value: &str) -> (r: Result<Self, ExecutionError>)
        ensures
            r is Ok <==> value@.len() > 0,
            r matches Ok(id) ==> id@ == value@,
            r matches Err(e) ==> e == ExecutionError::EmptyIdentity,
    {
        if value.is_empty() {
            Err(ExecutionError::EmptyIdentity)
        } else {
            Ok(PermissionId { value: value.to_owned() })
        }
    }

    /// The identity's exact text.
    pub fn as_str(&self) -> (r: &str)
        ensures
            r@ == self@,
    {
        self.value.as_str()
    }

    /// Whether both identities have the same text.
    pub fn same(&self, other: &Self) -> (r: bool)
        ensures
            r == (self@ == other@),
    {
        self.value == other.value
    }

    /// UTF-8 byte length of the identity.
    pub fn byte_len(&self) -> (r: usize)
        ensures
            r == blen(self@),
    {
        text_len(&self.value)
    }

}

/// Identity of one offered permission choice.
#[derive(Debug, PartialEq, Eq, Hash)]
pub struct PermissionOptionId {
    value: String,
}

impl View for PermissionOptionId {
    type V = Seq<char>;

    closed spec fn view(&self) -> Seq<char> {
        self.value@
    }
}

impl Clone for PermissionOptionId {
    fn clone(&self) -> (r: Self)
        ensures
            r == *self,
    {
        PermissionOptionId { value: self.value.clone() }
    }
}

impl PermissionOptionId {
    /// Takes `value` as the identity; empty text is refused.
    pub fn new(value: &str) -> (r: Result<Self, ExecutionError>)
        ensures
            r is Ok <==> value@.len() > 0,
            r matches Ok(id) ==> id@ == value@,
            r matches Err(e) ==> e == ExecutionError::EmptyIdentity,
    {
        if value.is_empty() {
            Err(ExecutionError::EmptyIdentity)
        } else {
            Ok(PermissionOptionId { value: value.to_owned() })
        }
    }

    /// The identity's exact text.
    pub fn as_str(&self) -> (r: &str)
        ensures
            r@ == self@,
    {
        self.value.as_str()
    }

    /// Whether both identities have the same text.
    pub fn same(&self, other: &Self) -> (r: bool)
        ensures
            r == (self@ == other@),
    {
        self.value == other.value
    }

    /// UTF-8 byte length of the identity.
    pub fn byte_len(&self) -> (r: usize)
        ensures
            r == blen(self@),
    {
        text_len(&self.value)
    }

}

/// Identity of one tool call within its execution.
#[derive(Debug, PartialEq, Eq, Hash)]
pub struct ToolCallId {
    value: String,
}

impl View for ToolCallId {
    type V = Seq<char>;

    closed spec fn view(&self) -> Seq<char> {
        self.value@
    }
}

impl Clone for ToolCallId {
    fn clone(&self) -> (r: Self)
        ensures
            r == *self,
    {
        ToolCallId { value: self.value.clone() }
    }
}

impl ToolCallId {
    /// Takes `value` as the identity; empty text is refused.
    pub fn new(value: &str) -> (r: Result<Self, ExecutionError>)
        ensures
            r is Ok <==> value@.len() > 0,
            r matches Ok(id) ==> id@ == value@,
            r matches Err(e) ==> e == ExecutionError::EmptyIdentity,
    {
        if value.is_empty() {
            Err(ExecutionError::EmptyIdentity)
        } else {
            Ok(ToolCallId { value: value.to_owned() })
        }
    }

    /// The identity's exact text.
    pub fn as_str(&self) -> (r: &str)
        ensures
            r@ == self@,
    {
        self.value.as_str()
    }

    /// Whether both identities have the same text.
    pub fn same(&self, other: &Self) -> (r: bool)
        ensures
            r == (self@ == other@),
    {
        self.value == other.value
    }

    /// UTF-8 byte length of the identity.
    pub fn byte_len(&self) -> (r: usize)
        ensures
            r == blen(self@),
    {
        text_len(&self.value)
    }

}

/// Identity of one question that the agent asks.
#[derive(Debug, PartialEq, Eq, Hash)]
pub struct QuestionId {
    value: String,
}

impl View for QuestionId {
    type V = Seq<char>;

    closed spec fn view(&self) -> Seq<char> {
        self.value@
    }
}

impl Clone for QuestionId {
    fn clone(&self) -> (r: Self)
        ensures
            r == *self,
    {
        QuestionId { value: self.value.clone() }
    }
}

impl QuestionId {
    /// Takes `value` as the identity; empty text is refused.
    pub fn new(value: &str) -> (r: Result<Self, ExecutionError>)
        ensures
            r is Ok <==> value@.len() > 0,
            r matches Ok(id) ==> id@ == value@,
            r matches Err(e) ==> e == ExecutionError::EmptyIdentity,
    {
        if value.is_empty() {
            Err(ExecutionError::EmptyIdentity)
        } else {
            Ok(QuestionId { value: value.to_owned() })
        }
    }

    /// The identity's exact text.
    pub fn as_str(&self) -> (r: &str)
        ensures
            r@ == self@,
    {
        self.value.as_str()
    }

    /// Whether both identities have the same text.
    pub fn same(&self, other: &Self) -> (r: bool)
        ensures
            r == (self@ == other@),
    {
        self.value == other.value
    }

    /// UTF-8 byte length of the identity.
    pub fn byte_len(&self) -> (r: usize)
        ensures
            r == blen(self@),
    {
        text_len(&self.value)
    }

}

/// Identity of one review that this binding declined before offering it.
#[derive(Debug, PartialEq, Eq, Hash)]
pub struct ReviewDeclineId {
    value: String,
}

impl View for ReviewDeclineId {
    type V = Seq<char>;

    closed spec fn view(&self) -> Seq<char> {
        self.value@
    }
}

impl Clone for ReviewDeclineId {
    fn clone(&self) -> (r: Self)
        ensures
            r == *self,
    {
        ReviewDeclineId { value: self.value.clone() }
    }
}

impl ReviewDeclineId {
    /// Takes `value` as the identity; empty text is refused.
    pub fn new(value: &str) -> (r: Result<Self, ExecutionError>)
        ensures
            r is Ok <==> value@.len() > 0,
            r matches Ok(id) ==> id@ == value@,
            r matches Err(e) ==> e == ExecutionError::EmptyIdentity,
    {
        if value.is_empty() {
            Err(ExecutionError::EmptyIdentity)
        } else {
            Ok(ReviewDeclineId { value: value.to_owned() })
        }
    }

    /// The identity's exact text.
    pub fn as_str(&self) -> (r: &str)
        ensures
            r@ == self@,
    {
        self.value.as_str()
    }

    /// Whether both identities have the same text.
    pub fn same(&self, other: &Self) -> (r: bool)
        ensures
            r == (self@ == other@),
    {
        self.value == other.value
    }

    /// UTF-8 byte length of the identity.
    pub fn byte_len(&self) -> (r: usize)
        ensures
            r == blen(self@),
    {
        text_len(&self.value)
    }

}

} // verus!
