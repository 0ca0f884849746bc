//! The summarizer bot: long messages are summarized by a language model.

pub mod config;
pub mod handler;
pub mod llm;
