//! The backoff policy: a fixed, escalating ladder of wait durations, in
//! seconds, consumed left to right on transient failure. Its length is the
//! retry budget — one attempt per delay, then one final unretried attempt.

use vstd::prelude::*;

verus! {

/// The fixed retry schedule, in seconds.
pub open spec fn retry_schedule() -> Seq<u64> {
    seq![10u64, 30u64, 65u64]
}

/// The delays of the retry schedule, in order.
pub fn retry_delays() -> (r: Vec<u64>)
    ensures
        r@ == retry_schedule(),
{
    let mut v: Vec<u64> = Vec::new();
    v.push(10);
    v.push(30);
    v.push(65);
    proof {
        assert(v@ =~= retry_schedule());
    }
    v
}

} // verus!
