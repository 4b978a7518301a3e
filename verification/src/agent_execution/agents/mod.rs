//! Typed agent failures, their content comparison and retention bounds, the
//! attachment projections, the session lifecycle state machine and its laws, and
//! the decisions the invocation runner takes between its awaits.
pub mod attachment;
pub mod attachment_task;
pub mod comparison;
mod error;
pub mod error_limits;
pub mod invocation_task;
pub mod laws;
pub mod lifecycle;
pub mod lifecycle_laws;
pub mod pending_run;
pub mod queue;
pub mod recovery;
pub mod runner;
pub mod scheduling;
pub mod settlement;
pub mod steering_task;
pub use error::AgentError;
