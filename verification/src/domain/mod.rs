//! Execution-session aggregate and the value objects it retains.
pub mod error;
pub mod ids;
pub mod tools;
pub mod permissions;
pub mod executions;
pub mod session;
pub mod media;
pub mod scheduling;
pub mod questions;
pub mod attachment;
