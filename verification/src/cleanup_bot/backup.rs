//! Attachments downloaded before their message is deleted wait in a queue
//! until a background worker has uploaded them to cloud storage.

pub mod queue;
pub mod worker;
