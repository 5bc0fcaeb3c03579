use code_agent::chain::{chain_scripted, stage1_turn, stage2_turn, ChainKind};
use code_agent::engine::AttemptEvent;
use code_agent::llm::{GeminiClient, LlmError};
use code_agent::server::{
    chain_failure_message, report_failure_message, BugFixParams, ExplanationParams, FeatureParams,
};

fn client(keys: &[&str]) -> GeminiClient {
    GeminiClient::new(keys.iter().map(|k| k.to_string()).collect(), None)
}

fn reply(text: &str) -> Vec<AttemptEvent> {
    vec![AttemptEvent::Reply(Some(text.to_string()))]
}

#[test]
fn stage1_user_templates() {
    let t = stage1_turn(ChainKind::Feature, "R", "F");
    assert_eq!(t.user, "Codebase Report:\nR\n\nFeature Request: F");
    let t = stage1_turn(ChainKind::BugFix, "R", "B");
    assert_eq!(t.user, "Codebase Report:\nR\n\nBug Description: B");
    let t = stage1_turn(ChainKind::Explanation, "R", "Q");
    assert_eq!(t.user, "Codebase Report:\nR\n\nQuery: Q");
}

#[test]
fn stage2_user_templates() {
    let t = stage2_turn(ChainKind::Feature, "R", "F", "P");
    assert_eq!(
        t.user,
        "Codebase Report:\nR\n\nOriginal Feature Request: F\n\nHigh-Level Plan:\nP\n\nNow provide the detailed implementation plan with specific file paths, code snippets, and clear instructions/explanations."
    );
    let t = stage2_turn(ChainKind::BugFix, "R", "B", "A");
    assert_eq!(
        t.user,
        "Codebase Report:\nR\n\nBug Description: B\n\nRoot Cause Analysis:\nA\n\nNow provide the detailed fix implementation plan with specific file paths and code changes."
    );
    let t = stage2_turn(ChainKind::Explanation, "R", "Q", "K");
    assert_eq!(
        t.user,
        "Codebase Report:\nR\n\nOriginal Query: Q\n\nKey Components Identified:\nK\n\nNow provide a comprehensive technical explanation with code examples and clear structure."
    );
}

#[test]
fn stage_system_instructions_are_fixed_and_distinct() {
    let s1 = stage1_turn(ChainKind::Feature, "", "").system;
    assert!(s1.starts_with("You are a senior software architect"));
    let s2 = stage2_turn(ChainKind::Feature, "", "", "").system;
    assert!(s2.starts_with("You are a senior software engineer creating a detailed implementation guide."));
    assert_ne!(s1, s2);
    assert!(stage1_turn(ChainKind::BugFix, "", "").system.starts_with("You are a senior software developer"));
    assert!(stage1_turn(ChainKind::Explanation, "", "").system.starts_with("You are a principal engineer"));
}

#[test]
fn chain_composes_two_stages() {
    // Stage 1 answers "A", stage 2 answers "B": the chain's result is exactly
    // "B", and the stage-2 user content carries "A" within it.
    let mut c = client(&["k1", "k2"]);
    let schedule = vec![1u64];
    let e1 = vec![AttemptEvent::Reply(Some("A".to_string())), AttemptEvent::Failed("x".into())];
    let e2 = vec![AttemptEvent::Reply(Some("B".to_string())), AttemptEvent::Failed("x".into())];
    let run = chain_scripted(&mut c, &schedule, ChainKind::Feature, "R", "F", &e1, &e2);
    assert_eq!(run.result.unwrap(), "B");
    let stage2 = run.stage2.expect("stage 2 must run after stage 1 succeeded");
    assert!(stage2.turn.user.contains("A"));
    assert!(stage2.turn.user.contains("High-Level Plan:\nA"));
    assert_eq!(run.stage1.run.result.unwrap(), "A");
}

#[test]
fn chain_stops_when_stage1_fails() {
    let mut c = client(&["k1"]);
    let schedule = vec![1u64];
    let e1 = vec![AttemptEvent::Reply(None), AttemptEvent::Failed("x".into())];
    let e2 = reply("never used");
    let mut e2_padded = e2;
    e2_padded.push(AttemptEvent::Failed("pad".into()));
    let run = chain_scripted(&mut c, &schedule, ChainKind::BugFix, "R", "B", &e1, &e2_padded);
    assert!(matches!(run.result, Err(LlmError::NoContent)));
    assert!(run.stage2.is_none());
}

#[test]
fn chain_surfaces_stage2_failure() {
    let mut c = client(&["k1"]);
    let schedule: Vec<u64> = Vec::new();
    let e1 = reply("A");
    let e2 = vec![AttemptEvent::Failed("down".to_string())];
    let run = chain_scripted(&mut c, &schedule, ChainKind::Explanation, "R", "Q", &e1, &e2);
    match run.result {
        Err(LlmError::Api(m)) => assert_eq!(m, "down"),
        _ => panic!("stage-2 failure must fail the whole chain"),
    }
    assert!(run.stage2.is_some());
}

#[test]
fn failure_messages() {
    assert_eq!(
        report_failure_message("exit status 1"),
        "Failed to generate codebase report: exit status 1"
    );
    assert_eq!(
        chain_failure_message(ChainKind::Feature, "boom"),
        "Failed to generate feature plan from Gemini: boom"
    );
    assert_eq!(
        chain_failure_message(ChainKind::BugFix, "boom"),
        "Failed to generate bug fix plan from Gemini: boom"
    );
    assert_eq!(
        chain_failure_message(ChainKind::Explanation, "boom"),
        "Failed to generate explanation from Gemini: boom"
    );
}

#[test]
fn request_params_carry_directory_and_text() {
    let f = FeatureParams { directory: "/w/app".to_string(), feature_prompt: "add auth".to_string() };
    assert_eq!(f.directory, "/w/app");
    assert_eq!(f.feature_prompt, "add auth");
    let b = BugFixParams { directory: "/w/app".to_string(), bug_description: "crash".to_string() };
    assert_eq!(b.bug_description, "crash");
    let e = ExplanationParams { directory: "/w/app".to_string(), explanation_query: "how".to_string() };
    assert_eq!(e.explanation_query, "how");
}
