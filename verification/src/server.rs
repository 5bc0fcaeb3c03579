//! The request shapes the orchestration layer routes to the three chains, and
//! the caller-visible error messages it builds from a failure.

use vstd::prelude::*;
use vstd::string::StringExecFns;
use crate::chain::ChainKind;

verus! {

/// Parameters of a feature-planning request: the absolute path of the target
/// codebase directory and the free-text feature request.
pub struct FeatureParams {
    pub directory: String,
    pub feature_prompt: String,
}

/// Parameters of a bug-fix-planning request: the absolute path of the target
/// codebase directory and the free-text bug description.
pub struct BugFixParams {
    pub directory: String,
    pub bug_description: String,
}

/// Parameters of an explanation request: the absolute path of the target
/// codebase directory and the free-text query.
pub struct ExplanationParams {
    pub directory: String,
    pub explanation_query: String,
}

/// The caller-visible message when the report generator failed.
pub open spec fn report_failure_message_spec(detail: Seq<char>) -> Seq<char> {
    "Failed to generate codebase report: "@ + detail
}

pub fn report_failure_message(detail: &str) -> (r: String)
    ensures
        r@ == report_failure_message_spec(detail@),
{
    let mut s = "Failed to generate codebase report: ".to_owned();
    s.append(detail);
    s
}

/// The caller-visible message when a chain failed, by chain kind.
pub open spec fn chain_failure_message_spec(kind: ChainKind, detail: Seq<char>) -> Seq<char> {
    match kind {
        ChainKind::Feature => "Failed to generate feature plan from Gemini: "@ + detail,
        ChainKind::BugFix => "Failed to generate bug fix plan from Gemini: "@ + detail,
        ChainKind::Explanation => "Failed to generate explanation from Gemini: "@ + detail,
    }
}

pub fn chain_failure_message(kind: ChainKind, detail: &str) -> (r: String)
    ensures
        r@ == chain_failure_message_spec(kind, detail@),
{
    let mut s = match kind {
        ChainKind::Feature => "Failed to generate feature plan from Gemini: ".to_owned(),
        ChainKind::BugFix => "Failed to generate bug fix plan from Gemini: ".to_owned(),
        ChainKind::Explanation => "Failed to generate explanation from Gemini: ".to_owned(),
    };
    s.append(detail);
    s
}

} // verus!
