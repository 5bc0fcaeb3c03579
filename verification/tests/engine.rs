use code_agent::backoff::retry_delays;
use code_agent::engine::{on_attempt_result, query_scripted, AttemptEvent, QueryStep};
use code_agent::llm::{GeminiClient, LlmError};

fn client(keys: &[&str]) -> GeminiClient {
    GeminiClient::new(keys.iter().map(|k| k.to_string()).collect(), None)
}

fn failed(detail: &str) -> AttemptEvent {
    AttemptEvent::Failed(detail.to_string())
}

fn reply(text: Option<&str>) -> AttemptEvent {
    AttemptEvent::Reply(text.map(|t| t.to_string()))
}

#[test]
fn retry_exhaustion_makes_schedule_len_plus_one_attempts() {
    let mut c = client(&["k1", "k2"]);
    let schedule = vec![1u64, 2, 3];
    let events = vec![failed("e1"), failed("e2"), failed("e3"), failed("e4")];
    let run = query_scripted(&mut c, &schedule, &events);
    assert_eq!(run.attempts, 4);
    assert_eq!(run.slept, vec![1, 2, 3]);
    match run.result {
        Err(LlmError::Api(m)) => assert_eq!(m, "e4"),
        _ => panic!("exhausted ladder must fail with the provider error"),
    }
}

#[test]
fn early_success_stops_immediately() {
    let mut c = client(&["k1"]);
    let schedule = vec![1u64, 2, 3];
    let events = vec![failed("e1"), reply(Some("answer")), failed("never reached"), failed("x")];
    let run = query_scripted(&mut c, &schedule, &events);
    assert_eq!(run.attempts, 2);
    assert_eq!(run.slept, vec![1]);
    assert_eq!(run.result.unwrap(), "answer");
}

#[test]
fn success_on_first_attempt_makes_one_attempt() {
    let mut c = client(&["k1"]);
    let schedule = vec![1u64, 2, 3];
    let events = vec![reply(Some("answer")), failed("x"), failed("x"), failed("x")];
    let run = query_scripted(&mut c, &schedule, &events);
    assert_eq!(run.attempts, 1);
    assert!(run.slept.is_empty());
    assert_eq!(run.result.unwrap(), "answer");
}

#[test]
fn no_content_is_not_retried() {
    let mut c = client(&["k1", "k2"]);
    let schedule = vec![1u64, 2, 3];
    let events = vec![reply(None), failed("x"), failed("x"), failed("x")];
    let run = query_scripted(&mut c, &schedule, &events);
    assert_eq!(run.attempts, 1);
    assert!(run.slept.is_empty());
    assert!(matches!(run.result, Err(LlmError::NoContent)));
}

#[test]
fn build_failure_is_definitive() {
    let mut c = client(&["k1"]);
    let schedule = vec![1u64, 2];
    let events = vec![
        AttemptEvent::BuildFailed("bad request".to_string()),
        failed("x"),
        failed("x"),
    ];
    let run = query_scripted(&mut c, &schedule, &events);
    assert_eq!(run.attempts, 1);
    match run.result {
        Err(LlmError::Api(m)) => assert_eq!(m, "bad request"),
        _ => panic!("a build failure must surface as the provider error"),
    }
}

#[test]
fn query_draws_a_fresh_key_per_attempt() {
    // Pool ["k1","k2"], schedule [1s], provider fails once then succeeds:
    // the call returns the success text, having drawn k1 then k2.
    let mut c = client(&["k1", "k2"]);
    let schedule = vec![1u64];
    let events = vec![failed("throttled"), reply(Some("the plan"))];
    let run = query_scripted(&mut c, &schedule, &events);
    assert_eq!(run.result.unwrap(), "the plan");
    assert_eq!(run.keys_used, vec!["k1", "k2"]);
    assert_eq!(run.slept, vec![1]);
}

#[test]
fn step_schedules_next_delay_on_transient_failure() {
    let schedule = vec![10u64, 30, 65];
    match on_attempt_result(&schedule, 0, &failed("e")) {
        QueryStep::Retry(d) => assert_eq!(d, 10),
        _ => panic!("a transient failure with delays left must retry"),
    }
    match on_attempt_result(&schedule, 2, &failed("e")) {
        QueryStep::Retry(d) => assert_eq!(d, 65),
        _ => panic!("a transient failure with delays left must retry"),
    }
    match on_attempt_result(&schedule, 3, &failed("last")) {
        QueryStep::Done(Err(LlmError::Api(m))) => assert_eq!(m, "last"),
        _ => panic!("the final attempt's failure must settle the call"),
    }
}

#[test]
fn backoff_schedule_is_fixed_ladder() {
    assert_eq!(retry_delays(), vec![10, 30, 65]);
}

#[test]
fn error_messages() {
    assert_eq!(
        LlmError::Api("boom".to_string()).message(),
        "OpenAI API error: boom"
    );
    assert_eq!(
        LlmError::NoContent.message(),
        "No response content from API"
    );
}
