//! Scheduled cleanup of a channel, and the scan behind `purge-user`.

pub mod purge;
pub mod queue;
pub mod task;
