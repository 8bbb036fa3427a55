//! Per-identity request quotas and a FIFO work queue, persisted in one
//! embedded SQLite store.
pub mod rate_limit;
pub mod storage;

pub use rate_limit::RateLimit;
pub use storage::{Storage, StorageError};
