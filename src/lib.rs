//! Mirrors posts from one source account onto destination accounts: the
//! reconciliation of a fetched feed against the last snapshot, the fan-out of
//! the resulting actions to every destination, the processor that applies the
//! queued actions one confirmed step at a time, and the retention sweeper.

pub mod account;
pub mod config;
pub mod operations;
pub mod source;
pub mod store;
pub mod reconcile;
pub mod merge;
pub mod retention;
pub mod processor;
pub mod protocols;
pub mod session;
