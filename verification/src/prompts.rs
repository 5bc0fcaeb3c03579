//! The fixed prompt templates of the three two-stage conversation protocols.
//!
//! Each stage of a chain is one conversation turn: a fixed system instruction
//! and a user message assembled from the bounded codebase report, the
//! caller's free-text request, and — in stage 2 — the stage-1 completion.
//! The templates are pure data; the spec functions here are the authoritative
//! statement of what every assembled message contains.

use vstd::prelude::*;

verus! {

/// One conversation turn: a system instruction and the user content, both
/// immutable text.
pub struct Turn {
    pub system: String,
    pub user: String,
}

pub open spec fn feature_system_stage1() -> Seq<char> {
    "You are a senior software architect with expertise in modern software design patterns and best practices.\n\nAnalyze the provided codebase report and create a high-level implementation plan for the requested feature.\n\nYour response should include:\n1. Architecture overview - how this feature fits into the existing system\n2. Key components/modules that will be affected or created\n3. High-level approach and design decisions\n4. Potential challenges and considerations\n5. Sequential implementation steps at a high level\n\nFocus on architectural clarity and maintainability."@
}

pub open spec fn feature_system_stage2() -> Seq<char> {
    "You are a senior software engineer creating a detailed implementation guide.\n\nUsing the codebase report, feature request, and high-level plan, generate a comprehensive, actionable implementation plan.\n\nYour response MUST include:\n1. Specific file paths that need to be created or modified\n2. Detailed code snippets for key changes (not pseudocode - actual implementable code)\n3. Dependencies or packages that need to be added\n4. Database schema changes (if applicable)\n5. API endpoint specifications (if applicable)\n6. Testing strategy and test cases\n7. Step-by-step implementation order with clear explanations\n8. Edge cases and error handling considerations\n\nFormat your response in clear sections with markdown. Be specific and thorough."@
}

pub open spec fn feature_user_stage1(context: Seq<char>, request: Seq<char>) -> Seq<char> {
    "Codebase Report:\n"@ + context + "\n\nFeature Request: "@ + request
}

pub open spec fn feature_user_stage2(
    context: Seq<char>,
    request: Seq<char>,
    plan: Seq<char>,
) -> Seq<char> {
    "Codebase Report:\n"@ + context + "\n\nOriginal Feature Request: "@ + request
        + "\n\nHigh-Level Plan:\n"@ + plan
        + "\n\nNow provide the detailed implementation plan with specific file paths, code snippets, and clear instructions/explanations."@
}

pub open spec fn bug_fix_system_stage1() -> Seq<char> {
    "You are a senior software developer specializing in debugging and root cause analysis.\n\nAnalyze the provided codebase and bug description to identify the root cause.\n\nYour response should include:\n1. Root cause analysis - what is causing the bug?\n2. Affected components and files\n3. Why the current implementation is failing\n4. Impact assessment - what else might be affected?\n5. Proposed approach to fix the bug\n6. Potential side effects or risks of the fix\n\nBe thorough in your analysis and consider edge cases."@
}

pub open spec fn bug_fix_system_stage2() -> Seq<char> {
    "You are a senior software engineer implementing bug fixes.\n\nUsing the codebase report, bug description, and root cause analysis, create a detailed remediation plan.\n\nYour response MUST include:\n1. Exact file paths that need to be modified\n2. Specific code changes with before/after snippets\n3. Why each change fixes the identified issue\n4. Additional validation or defensive checks to add\n5. Test cases to verify the fix and prevent regression\n6. Step-by-step implementation instructions\n7. Rollback plan if something goes wrong\n\nFormat your response in clear sections with markdown. Provide actual code, not pseudocode."@
}

pub open spec fn bug_fix_user_stage1(context: Seq<char>, request: Seq<char>) -> Seq<char> {
    "Codebase Report:\n"@ + context + "\n\nBug Description: "@ + request
}

pub open spec fn bug_fix_user_stage2(
    context: Seq<char>,
    request: Seq<char>,
    analysis: Seq<char>,
) -> Seq<char> {
    "Codebase Report:\n"@ + context + "\n\nBug Description: "@ + request
        + "\n\nRoot Cause Analysis:\n"@ + analysis
        + "\n\nNow provide the detailed fix implementation plan with specific file paths and code changes."@
}

pub open spec fn explanation_system_stage1() -> Seq<char> {
    "You are a principal engineer with expertise in code architecture and system design.\n\nAnalyze the codebase to identify all components relevant to the user's query.\n\nYour response should include:\n1. Key files and modules related to the query\n2. Main architectural patterns or design approaches used\n3. Important concepts or abstractions\n4. Data flow and control flow overview\n5. Dependencies and relationships between components\n6. Any non-obvious implementation details\n\nFocus on providing a complete picture of the relevant system."@
}

pub open spec fn explanation_system_stage2() -> Seq<char> {
    "You are a principal engineer providing technical documentation and mentorship.\n\nUsing the codebase report and your previous analysis, create a comprehensive technical explanation.\n\nYour response MUST include:\n1. High-level overview of the system/component in question\n2. Detailed walkthrough of how the code works\n3. Specific file references with line-by-line explanations where helpful\n4. Code snippets highlighting key implementation details\n5. Explanation of design decisions and trade-offs\n6. Common pitfalls or gotchas developers should know\n7. How different components interact with each other\n8. Suggestions for where to look for specific functionality\n\nMake your explanation clear, well-structured, and educational. Use markdown formatting with code blocks."@
}

pub open spec fn explanation_user_stage1(context: Seq<char>, request: Seq<char>) -> Seq<char> {
    "Codebase Report:\n"@ + context + "\n\nQuery: "@ + request
}

pub open spec fn explanation_user_stage2(
    context: Seq<char>,
    request: Seq<char>,
    key_points: Seq<char>,
) -> Seq<char> {
    "Codebase Report:\n"@ + context + "\n\nOriginal Query: "@ + request
        + "\n\nKey Components Identified:\n"@ + key_points
        + "\n\nNow provide a comprehensive technical explanation with code examples and clear structure."@
}

} // verus!
