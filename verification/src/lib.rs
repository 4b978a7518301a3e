//! Verified execution coordination for agent sessions: permission reviews, tool
//! observations, retention budgets, the session lifecycle that admits and stops
//! work, the runner's settlement decisions, and bounded diagnostics.
use vstd::prelude::*;

pub mod agent_binding;
pub mod agent_execution;
pub mod domain;
pub mod dto;
pub mod sums;
pub mod text;

verus! {

} // verus!
