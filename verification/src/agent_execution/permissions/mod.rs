//! Permission controls retain host attribution and exact reviewed tool input.
//! Audit records retain cancellation causes and attributed answer delivery.
mod answer;
mod approval;
mod audit;
mod cancellation;
pub use answer::{PermissionAnswer, PermissionAnswerFailure, PermissionSelectionState, QuestionAnswer};
pub use approval::{
    identity_ok, same_context, ActionContext, ApprovalAttribution, ApprovalBasis, ApprovalModeSnapshot,
    ApprovalRuleReference, PermissionResolution,
};
pub use audit::{
    PermissionAnswerDelivery, PermissionAnswerRecord, QuestionAnswerRecord, QuestionRefusalRecord,
    RefusedAsk, ReviewDeclineRecord,
};
pub use cancellation::{
    origin_permits, CancellationOrigin, PermissionCancellation, PermissionCancellationRequest,
};
