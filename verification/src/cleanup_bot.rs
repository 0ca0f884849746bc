//! The cleanup bot: per-channel retention policies, message deletion and
//! attachment backup.

pub mod backup;
pub mod cleanup;
pub mod clock;
pub mod cloud_storage;
pub mod command;
pub mod config;
pub mod discord;
