//! Credential resolution and request admission for a small system-report service.
pub mod text;
pub mod token;
pub mod admission;
pub mod resolve;
pub mod credential;
pub mod cli;
