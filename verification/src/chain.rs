//! The two-stage prompt chains: feature planning, bug-fix planning, and
//! explanation.
//!
//! Each chain issues two sequential queries. Stage 1 turns the bounded report
//! and the caller's request into an intermediate analysis; stage 2 grounds the
//! detailed follow-up in that analysis. The chain's result is stage 2's
//! completion; if either stage fails, the chain fails with that stage's error
//! and stage 1's output is never returned alone.
//!
//! `chain_scripted` runs a whole chain over given per-stage attempt events,
//! so the composition — sequencing, grounding, and error propagation — is
//! verified for every possible provider behaviour.

use vstd::prelude::*;
use vstd::string::StringExecFns;
use crate::engine::AttemptEvent;
use crate::engine::QueryRun;
use crate::engine::attempts_used;
use crate::engine::final_event;
use crate::engine::query_scripted;
use crate::engine::result_matches_event;
use crate::llm::GeminiClient;
use crate::llm::LlmError;
use crate::llm::rotated;
use crate::prompts::Turn;
use crate::prompts::bug_fix_system_stage1;
use crate::prompts::bug_fix_system_stage2;
use crate::prompts::bug_fix_user_stage1;
use crate::prompts::bug_fix_user_stage2;
use crate::prompts::explanation_system_stage1;
use crate::prompts::explanation_system_stage2;
use crate::prompts::explanation_user_stage1;
use crate::prompts::explanation_user_stage2;
use crate::prompts::feature_system_stage1;
use crate::prompts::feature_system_stage2;
use crate::prompts::feature_user_stage1;
use crate::prompts::feature_user_stage2;

verus! {

/// Which of the three conversation protocols a chain follows.
#[derive(Clone, Copy, PartialEq, Eq, Structural)]
pub enum ChainKind {
    Feature,
    BugFix,
    Explanation,
}

/// The fixed system instruction of a chain's first stage.
pub open spec fn stage1_system(kind: ChainKind) -> Seq<char> {
    match kind {
        ChainKind::Feature => feature_system_stage1(),
        ChainKind::BugFix => bug_fix_system_stage1(),
        ChainKind::Explanation => explanation_system_stage1(),
    }
}

/// The user content of a chain's first stage.
pub open spec fn stage1_user(kind: ChainKind, context: Seq<char>, request: Seq<char>) -> Seq<
    char,
> {
    match kind {
        ChainKind::Feature => feature_user_stage1(context, request),
        ChainKind::BugFix => bug_fix_user_stage1(context, request),
        ChainKind::Explanation => explanation_user_stage1(context, request),
    }
}

/// The fixed system instruction of a chain's second stage.
pub open spec fn stage2_system(kind: ChainKind) -> Seq<char> {
    match kind {
        ChainKind::Feature => feature_system_stage2(),
        ChainKind::BugFix => bug_fix_system_stage2(),
        ChainKind::Explanation => explanation_system_stage2(),
    }
}

/// The user content of a chain's second stage, grounded in the stage-1
/// completion `intermediate`.
pub open spec fn stage2_user(
    kind: ChainKind,
    context: Seq<char>,
    request: Seq<char>,
    intermediate: Seq<char>,
) -> Seq<char> {
    match kind {
        ChainKind::Feature => feature_user_stage2(context, request, intermediate),
        ChainKind::BugFix => bug_fix_user_stage2(context, request, intermediate),
        ChainKind::Explanation => explanation_user_stage2(context, request, intermediate),
    }
}

fn compose_stage1(prefix: &str, context: &str, mid: &str, request: &str) -> (r: String)
    ensures
        r@ == prefix@ + context@ + mid@ + request@,
{
    let mut s = prefix.to_owned();
    s.append(context);
    s.append(mid);
    s.append(request);
    s
}

fn compose_stage2(
    p1: &str,
    context: &str,
    p2: &str,
    request: &str,
    p3: &str,
    intermediate: &str,
    p4: &str,
) -> (r: String)
    ensures
        r@ == p1@ + context@ + p2@ + request@ + p3@ + intermediate@ + p4@,
{
    let mut s = p1.to_owned();
    s.append(context);
    s.append(p2);
    s.append(request);
    s.append(p3);
    s.append(intermediate);
    s.append(p4);
    s
}

/// Builds the stage-1 conversation turn of a chain.
pub fn stage1_turn(kind: ChainKind, context: &str, request: &str) -> (t: Turn)
    ensures
        t.system@ == stage1_system(kind),
        t.user@ == stage1_user(kind, context@, request@),
{
    match kind {
        ChainKind::Feature => Turn {
            system:
                "You are a senior software architect with expertise in modern software design patterns and best practices.\n\nAnalyze the provided codebase report and create a high-level implementation plan for the requested feature.\n\nYour response should include:\n1. Architecture overview - how this feature fits into the existing system\n2. Key components/modules that will be affected or created\n3. High-level approach and design decisions\n4. Potential challenges and considerations\n5. Sequential implementation steps at a high level\n\nFocus on architectural clarity and maintainability.".to_owned(),
            user: compose_stage1("Codebase Report:\n", context, "\n\nFeature Request: ", request),
        },
        ChainKind::BugFix => Turn {
            system:
                "You are a senior software developer specializing in debugging and root cause analysis.\n\nAnalyze the provided codebase and bug description to identify the root cause.\n\nYour response should include:\n1. Root cause analysis - what is causing the bug?\n2. Affected components and files\n3. Why the current implementation is failing\n4. Impact assessment - what else might be affected?\n5. Proposed approach to fix the bug\n6. Potential side effects or risks of the fix\n\nBe thorough in your analysis and consider edge cases.".to_owned(),
            user: compose_stage1("Codebase Report:\n", context, "\n\nBug Description: ", request),
        },
        ChainKind::Explanation => Turn {
            system:
                "You are a principal engineer with expertise in code architecture and system design.\n\nAnalyze the codebase to identify all components relevant to the user's query.\n\nYour response should include:\n1. Key files and modules related to the query\n2. Main architectural patterns or design approaches used\n3. Important concepts or abstractions\n4. Data flow and control flow overview\n5. Dependencies and relationships between components\n6. Any non-obvious implementation details\n\nFocus on providing a complete picture of the relevant system.".to_owned(),
            user: compose_stage1("Codebase Report:\n", context, "\n\nQuery: ", request),
        },
    }
}

/// Builds the stage-2 conversation turn of a chain, grounded in the stage-1
/// completion `intermediate`.
pub fn stage2_turn(kind: ChainKind, context: &str, request: &str, intermediate: &str) -> (t: Turn)
    ensures
        t.system@ == stage2_system(kind),
        t.user@ == stage2_user(kind, context@, request@, intermediate@),
{
    match kind {
        ChainKind::Feature => Turn {
            system:
                "You are a senior software engineer creating a detailed implementation guide.\n\nUsing the codebase report, feature request, and high-level plan, generate a comprehensive, actionable implementation plan.\n\nYour response MUST include:\n1. Specific file paths that need to be created or modified\n2. Detailed code snippets for key changes (not pseudocode - actual implementable code)\n3. Dependencies or packages that need to be added\n4. Database schema changes (if applicable)\n5. API endpoint specifications (if applicable)\n6. Testing strategy and test cases\n7. Step-by-step implementation order with clear explanations\n8. Edge cases and error handling considerations\n\nFormat your response in clear sections with markdown. Be specific and thorough.".to_owned(),
            user: compose_stage2(
                "Codebase Report:\n",
                context,
                "\n\nOriginal Feature Request: ",
                request,
                "\n\nHigh-Level Plan:\n",
                intermediate,
                "\n\nNow provide the detailed implementation plan with specific file paths, code snippets, and clear instructions/explanations.",
            ),
        },
        ChainKind::BugFix => Turn {
            system:
                "You are a senior software engineer implementing bug fixes.\n\nUsing the codebase report, bug description, and root cause analysis, create a detailed remediation plan.\n\nYour response MUST include:\n1. Exact file paths that need to be modified\n2. Specific code changes with before/after snippets\n3. Why each change fixes the identified issue\n4. Additional validation or defensive checks to add\n5. Test cases to verify the fix and prevent regression\n6. Step-by-step implementation instructions\n7. Rollback plan if something goes wrong\n\nFormat your response in clear sections with markdown. Provide actual code, not pseudocode.".to_owned(),
            user: compose_stage2(
                "Codebase Report:\n",
                context,
                "\n\nBug Description: ",
                request,
                "\n\nRoot Cause Analysis:\n",
                intermediate,
                "\n\nNow provide the detailed fix implementation plan with specific file paths and code changes.",
            ),
        },
        ChainKind::Explanation => Turn {
            system:
                "You are a principal engineer providing technical documentation and mentorship.\n\nUsing the codebase report and your previous analysis, create a comprehensive technical explanation.\n\nYour response MUST include:\n1. High-level overview of the system/component in question\n2. Detailed walkthrough of how the code works\n3. Specific file references with line-by-line explanations where helpful\n4. Code snippets highlighting key implementation details\n5. Explanation of design decisions and trade-offs\n6. Common pitfalls or gotchas developers should know\n7. How different components interact with each other\n8. Suggestions for where to look for specific functionality\n\nMake your explanation clear, well-structured, and educational. Use markdown formatting with code blocks.".to_owned(),
            user: compose_stage2(
                "Codebase Report:\n",
                context,
                "\n\nOriginal Query: ",
                request,
                "\n\nKey Components Identified:\n",
                intermediate,
                "\n\nNow provide a comprehensive technical explanation with code examples and clear structure.",
            ),
        },
    }
}

/// Whether a scripted query ends in a completion with content.
pub open spec fn script_succeeds(events: Seq<AttemptEvent>, retries: nat) -> bool {
    final_event(events, retries) matches AttemptEvent::Reply(c) && c is Some
}

/// The completion text of a scripted query that succeeds.
pub open spec fn script_text(events: Seq<AttemptEvent>, retries: nat) -> Seq<char> {
    match final_event(events, retries) {
        AttemptEvent::Reply(c) => match c {
            Some(text) => text@,
            None => Seq::empty(),
        },
        _ => Seq::empty(),
    }
}

fn clone_result(r: &Result<String, LlmError>) -> (c: Result<String, LlmError>)
    ensures
        (r matches Ok(t) ==> (c matches Ok(u) && u@ == t@)),
        (r matches Err(e) ==> (match e {
            LlmError::NoContent => c matches Err(f) && f is NoContent,
            LlmError::Api(m) => c matches Err(f) && (f matches LlmError::Api(n) && n@ == m@),
        })),
{
    match r {
        Ok(text) => Ok(text.clone()),
        Err(LlmError::NoContent) => Err(LlmError::NoContent),
        Err(LlmError::Api(detail)) => Err(LlmError::Api(detail.clone())),
    }
}

/// One stage of a chain as it ran: the turn that was sent and everything the
/// query did.
pub struct StageRecord {
    pub turn: Turn,
    pub run: QueryRun,
}

/// A whole chain as it ran. `result` is stage 2's outcome when stage 1
/// succeeded, else stage 1's failure; stage 1's output is never the result.
pub struct ChainRun {
    pub result: Result<String, LlmError>,
    pub stage1: StageRecord,
    pub stage2: Option<StageRecord>,
}

/// Runs a whole two-stage chain over given per-stage attempt events: stage 1
/// queries with `events1`; only if it returns a completion does stage 2 run,
/// with `events2`, grounded in stage 1's text. The chain's result is stage
/// 2's outcome, or stage 1's failure.
pub fn chain_scripted(
    client: &mut GeminiClient,
    schedule: &Vec<u64>,
    kind: ChainKind,
    context: &str,
    request: &str,
    events1: &Vec<AttemptEvent>,
    events2: &Vec<AttemptEvent>,
) -> (r: ChainRun)
    requires
        old(client).keys().len() > 0,
        events1@.len() > schedule@.len(),
        events2@.len() > schedule@.len(),
    ensures
        r.stage1.turn.system@ == stage1_system(kind),
        r.stage1.turn.user@ == stage1_user(kind, context@, request@),
        r.stage1.run.attempts == attempts_used(events1@, schedule@.len() as nat),
        result_matches_event(r.stage1.run.result, final_event(events1@, schedule@.len() as nat)),
        !script_succeeds(events1@, schedule@.len() as nat) ==> {
            &&& r.stage2 is None
            &&& result_matches_event(r.result, final_event(events1@, schedule@.len() as nat))
            &&& final(client).keys() == rotated(
                old(client).keys(),
                attempts_used(events1@, schedule@.len() as nat),
            )
        },
        script_succeeds(events1@, schedule@.len() as nat) ==> {
            &&& r.stage2 matches Some(rec) && {
                &&& rec.turn.system@ == stage2_system(kind)
                &&& rec.turn.user@ == stage2_user(
                    kind,
                    context@,
                    request@,
                    script_text(events1@, schedule@.len() as nat),
                )
                &&& rec.run.attempts == attempts_used(events2@, schedule@.len() as nat)
                &&& result_matches_event(rec.run.result, final_event(events2@, schedule@.len() as nat))
            }
            &&& result_matches_event(r.result, final_event(events2@, schedule@.len() as nat))
            &&& final(client).keys() == rotated(
                rotated(old(client).keys(), attempts_used(events1@, schedule@.len() as nat)),
                attempts_used(events2@, schedule@.len() as nat),
            )
        },
        final(client).keys().len() == old(client).keys().len(),
        final(client).model_name() == old(client).model_name(),
        final(client).base_url() == old(client).base_url(),
{
    let t1 = stage1_turn(kind, context, request);
    let run1 = query_scripted(client, schedule, events1);
    match &run1.result {
        Ok(text) => {
            let t2 = stage2_turn(kind, context, request, text.as_str());
            let run2 = query_scripted(client, schedule, events2);
            let result = clone_result(&run2.result);
            ChainRun {
                result,
                stage1: StageRecord { turn: t1, run: run1 },
                stage2: Some(StageRecord { turn: t2, run: run2 }),
            }
        },
        Err(_) => {
            let result = clone_result(&run1.result);
            ChainRun { result, stage1: StageRecord { turn: t1, run: run1 }, stage2: None }
        },
    }
}

/// `needle` occurs contiguously somewhere in `hay`.
pub open spec fn contains_seq(hay: Seq<char>, needle: Seq<char>) -> bool {
    exists|i: int|
        0 <= i && i + needle.len() <= hay.len() && #[trigger] hay.subrange(i, i + needle.len())
            == needle
}

/// Chain grounding: whatever the chain kind, the stage-2 user content carries
/// the whole stage-1 completion text within it.
pub proof fn lemma_stage2_grounded(
    kind: ChainKind,
    context: Seq<char>,
    request: Seq<char>,
    intermediate: Seq<char>,
)
    ensures
        contains_seq(stage2_user(kind, context, request, intermediate), intermediate),
{
    let u = stage2_user(kind, context, request, intermediate);
    match kind {
        ChainKind::Feature => {
            let i = "Codebase Report:\n"@.len() + context.len()
                + "\n\nOriginal Feature Request: "@.len() + request.len()
                + "\n\nHigh-Level Plan:\n"@.len();
            assert(u.subrange(i as int, i as int + intermediate.len() as int) =~= intermediate);
        },
        ChainKind::BugFix => {
            let i = "Codebase Report:\n"@.len() + context.len() + "\n\nBug Description: "@.len()
                + request.len() + "\n\nRoot Cause Analysis:\n"@.len();
            assert(u.subrange(i as int, i as int + intermediate.len() as int) =~= intermediate);
        },
        ChainKind::Explanation => {
            let i = "Codebase Report:\n"@.len() + context.len() + "\n\nOriginal Query: "@.len()
                + request.len() + "\n\nKey Components Identified:\n"@.len();
            assert(u.subrange(i as int, i as int + intermediate.len() as int) =~= intermediate);
        },
    }
}

} // verus!
