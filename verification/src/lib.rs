//! Verified logic of two Discord bots: a summarizer that hands long messages
//! to a language model, and a cleanup bot that deletes expired messages and
//! backs their attachments up to cloud storage.

pub mod cleanup_bot;
pub mod summarizer;
pub mod text;
