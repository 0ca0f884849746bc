pub mod auth;
pub mod client;
