//! Execution requests and projections connect adapters to domain session state.
//! The controller owns review-input pairing and resource limits, while the domain
//! owns admission, observations, and permission transitions.
pub mod audit;
pub mod controller;
pub mod events;
pub mod laws;
pub mod limits;
pub use audit::{
    AdmissionAuditCause, AdmissionAuditStage, AttachmentAuditCause, AttachmentAuditRecord,
    AttachmentAuditStage, ExecutionAuditRecord, QueueAdmissionRecord, QueueOrderCause,
    QueueOrderRecord, QueueSettlementRecord, SessionClosureRecord, SteeringAcknowledgementRecord,
    SteeringAuditCause, SteeringAuditStage,
};
pub use controller::ExecutionController;
pub use events::{ExecutionEvent, ExecutionUpdate};
