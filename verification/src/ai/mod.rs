//! Requests to the language model: what is asked and where.

pub mod client;
pub mod prompts;
pub mod stream;
