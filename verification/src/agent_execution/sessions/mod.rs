//! Session storage evidence and failures, observation authority of dispatched
//! invocations, and the joining of repeated cleanup failures.
pub mod attachment;
pub mod dispatch;
pub mod storage;
pub use storage::StorageError;
