//! The credential pool and its round-robin rotation, and the typed failure of
//! a single LLM query.
//!
//! The pool is an ordered queue of API key strings. Every outbound attempt
//! draws the front credential and reappends it at the back, so load spreads
//! evenly across the pool: rotation never drops and never duplicates a key.

use std::collections::VecDeque;
use vstd::prelude::*;
use vstd::string::StringExecFns;

verus! {

/// A failure of one LLM query: either the provider call failed (carrying the
/// provider's error detail), or the provider answered without any content.
#[derive(Debug)]
pub enum LlmError {
    Api(String),
    NoContent,
}

impl LlmError {
    /// The human-readable description of this error.
    pub open spec fn message_spec(&self) -> Seq<char> {
        match self {
            LlmError::Api(detail) => "OpenAI API error: "@ + detail@,
            LlmError::NoContent => "No response content from API"@,
        }
    }

    pub fn message(&self) -> (r: String)
        ensures
            r@ == self.message_spec(),
    {
        match self {
            LlmError::Api(detail) => {
                let mut s = "OpenAI API error: ".to_owned();
                s.append(detail.as_str());
                s
            },
            LlmError::NoContent => "No response content from API".to_owned(),
        }
    }
}

/// One rotation step: the front credential moves to the back.
pub open spec fn rotate_once(keys: Seq<Seq<char>>) -> Seq<Seq<char>> {
    if keys.len() == 0 {
        keys
    } else {
        keys.subrange(1, keys.len() as int).push(keys[0])
    }
}

/// `n` successive rotation steps.
pub open spec fn rotated(keys: Seq<Seq<char>>, n: nat) -> Seq<Seq<char>>
    decreases n,
{
    if n == 0 {
        keys
    } else {
        rotated(rotate_once(keys), (n - 1) as nat)
    }
}

/// The credentials handed out by `n` successive draws from the pool.
pub open spec fn draws(keys: Seq<Seq<char>>, n: nat) -> Seq<Seq<char>>
    decreases n,
{
    if n == 0 {
        Seq::empty()
    } else {
        seq![keys[0]] + draws(rotate_once(keys), (n - 1) as nat)
    }
}

/// No two credentials in the pool are the same string.
pub open spec fn distinct_keys(keys: Seq<Seq<char>>) -> bool {
    forall|i: int, j: int| 0 <= i < j < keys.len() ==> keys[i] != keys[j]
}

/// The pool concatenated with itself `q` times.
pub open spec fn repeated(keys: Seq<Seq<char>>, q: nat) -> Seq<Seq<char>>
    decreases q,
{
    if q == 0 {
        Seq::empty()
    } else {
        keys + repeated(keys, (q - 1) as nat)
    }
}

/// How many entries of `s` equal `x`.
pub open spec fn occurrences(s: Seq<Seq<char>>, x: Seq<char>) -> nat
    decreases s.len(),
{
    if s.len() == 0 {
        0
    } else {
        (if s[0] == x {
            1nat
        } else {
            0nat
        }) + occurrences(s.skip(1), x)
    }
}

/// The LLM client: a rotating pool of API keys together with the fixed
/// endpoint base URL and model identifier.
pub struct GeminiClient {
    api_keys: VecDeque<String>,
    api_base: String,
    model: String,
}

impl GeminiClient {
    /// The pool of credentials, front of the rotation first.
    pub closed spec fn keys(&self) -> Seq<Seq<char>> {
        self.api_keys.deep_view()
    }

    /// The configured model identifier.
    pub closed spec fn model_name(&self) -> Seq<char> {
        self.model@
    }

    /// The configured endpoint base URL.
    pub closed spec fn base_url(&self) -> Seq<char> {
        self.api_base@
    }

    pub fn new(api_keys: Vec<String>, model: Option<String>) -> (client: GeminiClient)
        ensures
            client.keys() == api_keys.deep_view(),
            client.base_url() == "https://generativelanguage.googleapis.com/v1beta"@,
            client.model_name() == (match model {
                Some(m) => m@,
                None => "gemini-2.5-pro"@,
            }),
    {
        let mut pool: VecDeque<String> = VecDeque::new();
        proof {
            assert(pool@ =~= api_keys@.take(0));
        }
        let mut i: usize = 0;
        while i < api_keys.len()
            invariant
                i <= api_keys@.len(),
                pool@ == api_keys@.take(i as int),
            decreases api_keys@.len() - i,
        {
            pool.push_back(api_keys[i].clone());
            proof {
                assert(pool@ =~= api_keys@.take(i as int + 1));
            }
            i += 1;
        }
        proof {
            assert(pool@ =~= api_keys@);
            assert(pool.deep_view() =~= api_keys.deep_view());
        }
        GeminiClient {
            api_keys: pool,
            api_base: "https://generativelanguage.googleapis.com/v1beta".to_owned(),
            model: match model {
                Some(m) => m,
                None => "gemini-2.5-pro".to_owned(),
            },
        }
    }

    /// Removes the credential at the front of the pool, reappends it at the
    /// back, and returns it: one round-robin rotation step. The pool length
    /// never changes. The pool must not be empty.
    pub fn get_next_api_key(&mut self) -> (key: String)
        requires
            old(self).keys().len() > 0,
        ensures
            key@ == old(self).keys()[0],
            final(self).keys() == rotate_once(old(self).keys()),
            final(self).keys().len() == old(self).keys().len(),
            final(self).model_name() == old(self).model_name(),
            final(self).base_url() == old(self).base_url(),
    {
        let key = self.api_keys.pop_front().unwrap();
        self.api_keys.push_back(key.clone());
        proof {
            assert(self.keys() =~= rotate_once(old(self).keys()));
        }
        key
    }

    /// How many credentials the pool holds.
    pub fn key_count(&self) -> (n: usize)
        ensures
            n == self.keys().len(),
    {
        self.api_keys.len()
    }

    pub fn model(&self) -> (r: &str)
        ensures
            r@ == self.model_name(),
    {
        self.model.as_str()
    }

    pub fn api_base(&self) -> (r: &str)
        ensures
            r@ == self.base_url(),
    {
        self.api_base.as_str()
    }
}

/// Splitting a run of draws: the first `a` draws, then `b` more from the
/// rotated pool.
pub proof fn lemma_draws_add(keys: Seq<Seq<char>>, a: nat, b: nat)
    ensures
        draws(keys, a + b) == draws(keys, a) + draws(rotated(keys, a), b),
    decreases a,
{
    if a == 0 {
        assert(draws(keys, b) =~= draws(keys, 0) + draws(rotated(keys, 0), b));
    } else {
        lemma_draws_add(rotate_once(keys), (a - 1) as nat, b);
        assert(draws(keys, a + b) =~= draws(keys, a) + draws(rotated(keys, a), b));
    }
}

pub proof fn lemma_rotated_add(keys: Seq<Seq<char>>, a: nat, b: nat)
    ensures
        rotated(keys, a + b) == rotated(rotated(keys, a), b),
    decreases a,
{
    if a > 0 {
        lemma_rotated_add(rotate_once(keys), (a - 1) as nat, b);
    }
}

/// One more draw extends the draw sequence with the front of the rotated pool.
pub proof fn lemma_draws_snoc(keys: Seq<Seq<char>>, n: nat)
    requires
        rotated(keys, n).len() > 0,
    ensures
        draws(keys, n + 1) == draws(keys, n).push(rotated(keys, n)[0]),
{
    lemma_draws_add(keys, n, 1);
    assert(draws(rotate_once(rotated(keys, n)), 0) =~= Seq::<Seq<char>>::empty());
    assert(draws(rotated(keys, n), 1) =~= seq![rotated(keys, n)[0]]);
    assert(draws(keys, n).push(rotated(keys, n)[0]) =~= draws(keys, n) + seq![
        rotated(keys, n)[0],
    ]);
}

/// Within one full cycle, the draws are exactly a prefix of the pool in its
/// original order.
pub proof fn lemma_draws_prefix(keys: Seq<Seq<char>>, k: nat)
    requires
        k <= keys.len(),
    ensures
        draws(keys, k) == keys.subrange(0, k as int),
    decreases k,
{
    if k == 0 {
        assert(draws(keys, 0) =~= keys.subrange(0, 0));
    } else {
        lemma_draws_prefix(rotate_once(keys), (k - 1) as nat);
        assert(draws(keys, k) =~= keys.subrange(0, k as int));
    }
}

/// After `n` steps within one cycle, the pool is its own suffix followed by
/// its own prefix.
pub proof fn lemma_rotated_split(keys: Seq<Seq<char>>, n: nat)
    requires
        keys.len() > 0,
        n <= keys.len(),
    ensures
        rotated(keys, n) == keys.subrange(n as int, keys.len() as int) + keys.subrange(0, n as int),
    decreases n,
{
    if n == 0 {
        assert(rotated(keys, 0) =~= keys.subrange(0, keys.len() as int) + keys.subrange(0, 0));
    } else {
        lemma_rotated_split(rotate_once(keys), (n - 1) as nat);
        assert(rotated(keys, n) =~= keys.subrange(n as int, keys.len() as int) + keys.subrange(
            0,
            n as int,
        ));
    }
}

/// A full cycle of rotations restores the pool exactly.
pub proof fn lemma_rotated_cycle(keys: Seq<Seq<char>>)
    requires
        keys.len() > 0,
    ensures
        rotated(keys, keys.len()) == keys,
{
    lemma_rotated_split(keys, keys.len());
    assert(keys.subrange(keys.len() as int, keys.len() as int) + keys.subrange(
        0,
        keys.len() as int,
    ) =~= keys);
}

pub proof fn lemma_occurrences_add(a: Seq<Seq<char>>, b: Seq<Seq<char>>, x: Seq<char>)
    ensures
        occurrences(a + b, x) == occurrences(a, x) + occurrences(b, x),
    decreases a.len(),
{
    if a.len() == 0 {
        assert(a + b =~= b);
    } else {
        assert((a + b).skip(1) =~= a.skip(1) + b);
        lemma_occurrences_add(a.skip(1), b, x);
        assert((a + b)[0] == a[0]);
    }
}

pub proof fn lemma_occurrences_absent(s: Seq<Seq<char>>, x: Seq<char>)
    requires
        !s.contains(x),
    ensures
        occurrences(s, x) == 0,
    decreases s.len(),
{
    if s.len() > 0 {
        assert(s[0] != x);
        assert forall|i: int| 0 <= i < s.skip(1).len() implies s.skip(1)[i] != x by {
            assert(s.skip(1)[i] == s[i + 1]);
            assert(s[i + 1] != x);
        }
        assert(!s.skip(1).contains(x));
        lemma_occurrences_absent(s.skip(1), x);
    }
}

/// In a pool of pairwise-distinct credentials, each member occurs exactly once.
pub proof fn lemma_occurrences_distinct(s: Seq<Seq<char>>, j: int)
    requires
        distinct_keys(s),
        0 <= j < s.len(),
    ensures
        occurrences(s, s[j]) == 1,
    decreases s.len(),
{
    assert forall|p: int, q: int| 0 <= p < q < s.skip(1).len() implies s.skip(1)[p] != s.skip(
        1,
    )[q] by {
        assert(s.skip(1)[p] == s[p + 1]);
        assert(s.skip(1)[q] == s[q + 1]);
    }
    assert(distinct_keys(s.skip(1)));
    if j == 0 {
        assert forall|i: int| 0 <= i < s.skip(1).len() implies s.skip(1)[i] != s[0] by {
            assert(s.skip(1)[i] == s[i + 1]);
        }
        assert(!s.skip(1).contains(s[0]));
        lemma_occurrences_absent(s.skip(1), s[0]);
    } else {
        assert(s[0] != s[j]);
        lemma_occurrences_distinct(s.skip(1), j - 1);
        assert(s.skip(1)[j - 1] == s[j]);
    }
}

pub proof fn lemma_repeated_occurrences(keys: Seq<Seq<char>>, q: nat, x: Seq<char>)
    ensures
        occurrences(repeated(keys, q), x) == q * occurrences(keys, x),
    decreases q,
{
    if q == 0 {
        assert(q * occurrences(keys, x) == 0) by (nonlinear_arith)
            requires
                q == 0,
        ;
    } else {
        lemma_occurrences_add(keys, repeated(keys, (q - 1) as nat), x);
        lemma_repeated_occurrences(keys, (q - 1) as nat, x);
        assert(q * occurrences(keys, x) == occurrences(keys, x) + (q - 1) * occurrences(keys, x))
            by (nonlinear_arith)
            requires
                q >= 1,
        ;
    }
}

/// Whole cycles of draws hand the pool out again and again, and leave the
/// pool in its original order.
pub proof fn lemma_draws_cycles(keys: Seq<Seq<char>>, q: nat)
    requires
        keys.len() > 0,
    ensures
        draws(keys, q * keys.len()) == repeated(keys, q),
        rotated(keys, q * keys.len()) == keys,
    decreases q,
{
    if q == 0 {
        assert(q * keys.len() == 0) by (nonlinear_arith)
            requires
                q == 0,
        ;
        assert(draws(keys, 0) =~= repeated(keys, 0));
    } else {
        let rest = ((q - 1) * keys.len()) as nat;
        assert(q * keys.len() == keys.len() + (q - 1) * keys.len()) by (nonlinear_arith)
            requires
                q >= 1,
        ;
        assert((q - 1) * keys.len() >= 0) by (nonlinear_arith)
            requires
                q >= 1,
        ;
        lemma_draws_add(keys, keys.len(), rest);
        lemma_rotated_add(keys, keys.len(), rest);
        lemma_draws_prefix(keys, keys.len());
        assert(keys.subrange(0, keys.len() as int) =~= keys);
        lemma_rotated_cycle(keys);
        lemma_draws_cycles(keys, (q - 1) as nat);
    }
}

/// Rotation fairness: `q * n` sequential draws from a pool of `n` distinct
/// credentials return the pool repeated `q` times over — each credential
/// exactly `q` times, in original relative order — and leave the pool in its
/// original order.
pub proof fn lemma_rotation_fairness(keys: Seq<Seq<char>>, q: nat)
    requires
        keys.len() > 0,
        distinct_keys(keys),
    ensures
        draws(keys, q * keys.len()) == repeated(keys, q),
        rotated(keys, q * keys.len()) == keys,
        forall|j: int|
            0 <= j < keys.len() ==> occurrences(draws(keys, q * keys.len()), keys[j]) == q,
{
    lemma_draws_cycles(keys, q);
    assert forall|j: int| 0 <= j < keys.len() implies occurrences(
        draws(keys, q * keys.len()),
        keys[j],
    ) == q by {
        lemma_repeated_occurrences(keys, q, keys[j]);
        lemma_occurrences_distinct(keys, j);
        assert(q * 1nat == q) by (nonlinear_arith);
    }
}

/// Rotation non-duplication: the first `k` draws from a pool of at least `k`
/// distinct credentials are pairwise distinct.
pub proof fn lemma_rotation_no_duplicates(keys: Seq<Seq<char>>, k: nat)
    requires
        distinct_keys(keys),
        k <= keys.len(),
    ensures
        draws(keys, k) == keys.subrange(0, k as int),
        forall|i: int, j: int| 0 <= i < j < k ==> draws(keys, k)[i] != draws(keys, k)[j],
{
    lemma_draws_prefix(keys, k);
}

} // verus!
