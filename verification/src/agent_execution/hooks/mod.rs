//! Invocation hook failures and how they settle an invocation.
mod invocation;
pub use invocation::{after_hooks_result, before_hook_failure, bounded_result, HookError, HookFailure};
