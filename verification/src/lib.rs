//! A resilient LLM query engine: credential rotation over a pool of API keys,
//! bounded retry with backoff on transient failures, report budgeting, and
//! two-stage prompt chaining.

pub mod backoff;
pub mod budget;
pub mod chain;
pub mod config;
pub mod engine;
pub mod llm;
pub mod prompts;
pub mod request;
pub mod server;

pub use budget::budget;
