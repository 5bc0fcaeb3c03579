//! The resilient query engine's decision core.
//!
//! One LLM query is a bounded ladder of attempts. Each attempt draws a fresh
//! credential, dispatches the request, and reports back one event: a reply
//! (with or without content), a request-build failure, or a transport
//! failure. Transport failures are retried after the scheduled delay until
//! the schedule is exhausted, then one final attempt decides the call; a
//! reply without content and a build failure are definitive and never
//! retried.
//!
//! The dispatching itself is the caller's business; everything that decides
//! is here. `on_attempt_result` is the single-step decision, and
//! `query_scripted` runs the whole ladder over a given sequence of attempt
//! events, so the retry discipline is verified once for every possible
//! provider behaviour.

use vstd::prelude::*;
use crate::llm::GeminiClient;
use crate::llm::LlmError;
use crate::llm::draws;
use crate::llm::lemma_draws_snoc;
use crate::llm::lemma_rotated_add;
use crate::llm::rotate_once;
use crate::llm::rotated;

verus! {

/// What one attempt reported back.
pub enum AttemptEvent {
    /// The provider answered; the first completion choice's text content, if
    /// any was present.
    Reply(Option<String>),
    /// The request could not even be built; carries the builder's error
    /// detail. Definitive: never retried.
    BuildFailed(String),
    /// Transport or protocol failure; carries the provider's error detail.
    /// Transient: retried while scheduled delays remain.
    Failed(String),
}

/// What the engine does after an attempt: wait and try again, or finish.
pub enum QueryStep {
    /// Sleep this many seconds, then make the next attempt with a freshly
    /// rotated credential.
    Retry(u64),
    /// The definitive outcome of the whole call.
    Done(Result<String, LlmError>),
}

/// How a definitive outcome reflects the event that decided it.
pub open spec fn result_matches_event(r: Result<String, LlmError>, event: AttemptEvent) -> bool {
    match event {
        AttemptEvent::Reply(content) => match content {
            Some(text) => r matches Ok(t) && t@ == text@,
            None => r matches Err(e) && e is NoContent,
        },
        AttemptEvent::BuildFailed(detail) => r matches Err(e) && e matches LlmError::Api(m)
            && m@ == detail@,
        AttemptEvent::Failed(detail) => r matches Err(e) && e matches LlmError::Api(m) && m@
            == detail@,
    }
}

/// What `on_attempt_result` must decide for a given event at a given attempt
/// index: a transient failure with delays left schedules the next delay;
/// everything else is definitive.
pub open spec fn step_spec(
    schedule: Seq<u64>,
    attempt: int,
    event: AttemptEvent,
    step: QueryStep,
) -> bool {
    match event {
        AttemptEvent::Failed(detail) => if attempt < schedule.len() {
            step matches QueryStep::Retry(d) && d == schedule[attempt]
        } else {
            step matches QueryStep::Done(r) && result_matches_event(r, event)
        },
        _ => step matches QueryStep::Done(r) && result_matches_event(r, event),
    }
}

/// How many attempts a query makes when the attempts report `events` in
/// order, with `retries` scheduled delays: one attempt per leading transient
/// failure while delays remain, plus the deciding attempt.
pub open spec fn attempts_used(events: Seq<AttemptEvent>, retries: nat) -> nat
    decreases retries,
{
    if retries == 0 || !(events[0] is Failed) {
        1
    } else {
        1 + attempts_used(events.skip(1), (retries - 1) as nat)
    }
}

/// The event of the attempt that decided the call.
pub open spec fn final_event(events: Seq<AttemptEvent>, retries: nat) -> AttemptEvent {
    events[attempts_used(events, retries) as int - 1]
}

/// Decides what follows one attempt. `attempt` is the 0-based index of the
/// attempt just made; indexes at or past the schedule's end belong to the
/// final, unretried attempt.
pub fn on_attempt_result(schedule: &Vec<u64>, attempt: usize, event: &AttemptEvent) -> (step:
    QueryStep)
    ensures
        step_spec(schedule@, attempt as int, *event, step),
{
    match event {
        AttemptEvent::Reply(content) => match content {
            Some(text) => QueryStep::Done(Ok(text.clone())),
            None => QueryStep::Done(Err(LlmError::NoContent)),
        },
        AttemptEvent::BuildFailed(detail) => QueryStep::Done(Err(LlmError::Api(detail.clone()))),
        AttemptEvent::Failed(detail) => {
            if attempt < schedule.len() {
                QueryStep::Retry(schedule[attempt])
            } else {
                QueryStep::Done(Err(LlmError::Api(detail.clone())))
            }
        },
    }
}

/// Everything one query did: its outcome, how many attempts it made, the
/// delays it slept between attempts, and the credentials it drew, in order.
pub struct QueryRun {
    pub result: Result<String, LlmError>,
    pub attempts: usize,
    pub slept: Vec<u64>,
    pub keys_used: Vec<String>,
}

proof fn lemma_attempts_from_prefix(events: Seq<AttemptEvent>, retries: nat, k: nat)
    requires
        k <= retries,
        k < events.len(),
        forall|i: int| 0 <= i < k ==> events[i] is Failed,
        k == retries || !(events[k as int] is Failed),
    ensures
        attempts_used(events, retries) == k + 1,
        final_event(events, retries) == events[k as int],
    decreases k,
{
    if k > 0 {
        assert(events[0] is Failed);
        assert forall|i: int| 0 <= i < k - 1 implies events.skip(1)[i] is Failed by {
            assert(events.skip(1)[i] == events[i + 1]);
        }
        assert(events.skip(1)[k as int - 1] == events[k as int]);
        lemma_attempts_from_prefix(events.skip(1), (retries - 1) as nat, (k - 1) as nat);
    }
}

/// Runs the whole retry ladder over a given sequence of attempt events: the
/// attempt at index `i` reports `events[i]`. Every attempt draws the next
/// credential from the pool; transient failures sleep the scheduled delay
/// (recorded, not performed) and retry; the first decisive event, or the
/// final attempt, settles the result.
pub fn query_scripted(client: &mut GeminiClient, schedule: &Vec<u64>, events: &Vec<AttemptEvent>)
    -> (r: QueryRun)
    requires
        old(client).keys().len() > 0,
        events@.len() > schedule@.len(),
    ensures
        r.attempts == attempts_used(events@, schedule@.len() as nat),
        1 <= r.attempts <= schedule@.len() + 1,
        result_matches_event(r.result, final_event(events@, schedule@.len() as nat)),
        r.slept@ == schedule@.take(r.attempts as int - 1),
        r.keys_used.deep_view() == draws(old(client).keys(), r.attempts as nat),
        final(client).keys() == rotated(old(client).keys(), r.attempts as nat),
        final(client).keys().len() == old(client).keys().len(),
        final(client).model_name() == old(client).model_name(),
        final(client).base_url() == old(client).base_url(),
{
    let ghost keys0 = client.keys();
    let ghost retries = schedule@.len() as nat;
    let total = events.len();
    let mut attempt: usize = 0;
    let mut slept: Vec<u64> = Vec::new();
    let mut keys_used: Vec<String> = Vec::new();
    proof {
        assert(slept@ =~= schedule@.take(0));
        assert(keys_used.deep_view() =~= draws(keys0, 0));
    }
    loop
        invariant
            attempt <= schedule@.len(),
            schedule@.len() < events@.len() <= usize::MAX,
            total == events@.len(),
            retries == schedule@.len() as nat,
            keys0 == old(client).keys(),
            keys0.len() > 0,
            forall|i: int| 0 <= i < attempt ==> events@[i] is Failed,
            slept@ == schedule@.take(attempt as int),
            keys_used.deep_view() == draws(keys0, attempt as nat),
            client.keys() == rotated(keys0, attempt as nat),
            client.keys().len() == keys0.len(),
            client.model_name() == old(client).model_name(),
            client.base_url() == old(client).base_url(),
        decreases schedule@.len() - attempt,
    {
        let key = client.get_next_api_key();
        keys_used.push(key);
        proof {
            lemma_draws_snoc(keys0, attempt as nat);
            assert(keys_used.deep_view() =~= draws(keys0, attempt as nat + 1));
            lemma_rotated_add(keys0, attempt as nat, 1);
            assert(rotated(rotate_once(rotated(keys0, attempt as nat)), 0) == rotate_once(
                rotated(keys0, attempt as nat),
            ));
        }
        let step = on_attempt_result(schedule, attempt, &events[attempt]);
        match step {
            QueryStep::Done(result) => {
                proof {
                    lemma_attempts_from_prefix(events@, retries, attempt as nat);
                }
                return QueryRun { result, attempts: attempt + 1, slept, keys_used };
            },
            QueryStep::Retry(delay) => {
                slept.push(delay);
                proof {
                    assert(slept@ =~= schedule@.take(attempt as int + 1));
                }
                attempt = attempt + 1;
            },
        }
    }
}

/// Retry exhaustion: when every attempt fails transiently, the engine makes
/// exactly one attempt per scheduled delay plus one final attempt, and the
/// deciding event is still a transient failure, so the call fails.
pub proof fn lemma_retry_exhaustion(events: Seq<AttemptEvent>, retries: nat)
    requires
        events.len() > retries,
        forall|i: int| 0 <= i < events.len() ==> events[i] is Failed,
    ensures
        attempts_used(events, retries) == retries + 1,
        final_event(events, retries) is Failed,
{
    lemma_attempts_from_prefix(events, retries, retries);
}

/// Early success: when the attempt at 0-based index `k` is the first
/// decisive one, the engine makes exactly `k + 1` attempts and stops there.
pub proof fn lemma_early_success(events: Seq<AttemptEvent>, retries: nat, k: nat)
    requires
        k <= retries,
        k < events.len(),
        forall|i: int| 0 <= i < k ==> events[i] is Failed,
        !(events[k as int] is Failed),
    ensures
        attempts_used(events, retries) == k + 1,
        final_event(events, retries) == events[k as int],
{
    lemma_attempts_from_prefix(events, retries, k);
}

/// A reply without content decides the call on the very first attempt — it
/// is never retried — and the call fails with the no-content error.
pub proof fn lemma_no_content_not_retried(
    events: Seq<AttemptEvent>,
    retries: nat,
    r: Result<String, LlmError>,
)
    requires
        events.len() > 0,
        events[0] matches AttemptEvent::Reply(c) && c is None,
        result_matches_event(r, final_event(events, retries)),
    ensures
        attempts_used(events, retries) == 1,
        r matches Err(e) && e is NoContent,
{
}

} // verus!
