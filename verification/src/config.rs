//! The immutable configuration the orchestrator is constructed with.

use vstd::prelude::*;
use crate::llm::GeminiClient;

verus! {

/// Resolved before the core starts serving: where the external report
/// generator lives, the LLM client with its credential pool, and the report
/// character ceiling.
pub struct Config {
    pub codebase_viewer_path: String,
    pub gemini_client: GeminiClient,
    pub token_char_limit: usize,
}

impl Config {
    /// A well-formed configuration never has an empty credential pool.
    pub open spec fn wf(&self) -> bool {
        self.gemini_client.keys().len() > 0
    }
}

} // verus!
