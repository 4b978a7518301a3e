//! Agent execution: typed failures, execution coordination and evidence, permission
//! controls, provider reports, session snapshots and tool review input.
pub mod agents;
pub mod executions;
pub mod hooks;
pub mod permissions;
pub mod providers;
pub mod sessions;
pub mod tools;
