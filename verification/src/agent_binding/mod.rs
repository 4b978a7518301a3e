//! Provider-independent binding contracts: prompts, observations and answers a host
//! exchanges with one agent binding.
pub mod contracts;
