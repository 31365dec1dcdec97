//! Single-owner execution core: every access to a stateful, thread-bound
//! resource runs on one dedicated worker, and calls that fail for a transient
//! reason are retried after resetting the resource.
pub mod error;
pub mod retry;
pub mod worker;
pub mod dispatch;
