//! Why a provider attachment was started.
use vstd::prelude::*;

verus! {

/// Validated cause of one provider attachment attempt.
#[derive(Clone, Copy, Debug, PartialEq, Eq, Structural)]
pub enum AttachmentCause {
    /// The first attachment of a new or restored session.
    Initial,
    /// A verified caller reopened a session whose context was recorded.
    Reopen,
    /// The runtime reattached after a failure.
    AutomaticRecovery,
}

} // verus!
