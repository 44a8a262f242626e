//! The retry schedule: bounded attempts with exponential backoff.
//!
//! An operation is invoked once and, on failure, retried up to a fixed
//! number of additional attempts.  Before each retry the caller sleeps for
//! the current delay, which doubles after every failure, without a cap and
//! without jitter.  Every error is retried alike; after the attempts are
//! exhausted the last error is returned.
//!
//! [`RetryState`] carries the schedule between attempts and is what a
//! caller that performs real I/O drives.  [`run_retry_schedule`] plays a
//! whole schedule against a pre-decided sequence of attempt outcomes and
//! carries the laws of the helper in its contract: an operation that fails
//! exactly `k` times and then succeeds is invoked exactly `k + 1` times and
//! its success value is returned, and an operation that always fails is
//! invoked exactly `max_retries + 1` times and its last error is
//! returned.

use vstd::prelude::*;

use vstd::arithmetic::mul::{lemma_mul_inequality, lemma_mul_is_associative};
use vstd::arithmetic::power2::{lemma_pow2_pos, lemma_pow2_unfold, pow2};

verus! {

/// The state of one retry schedule between attempts.
#[derive(Debug, Clone, Copy, PartialEq, Eq, Structural)]
pub struct RetryState {
    /// The number of additional attempts the schedule started with.
    pub max_retries: u32,
    /// The number of additional attempts still allowed.
    pub retries_left: u32,
    /// The delay, in milliseconds, to sleep before the next retry.
    pub delay_ms: u64,
}

impl RetryState {
    /// The delay can double once per remaining retry without leaving `u64`.
    pub open spec fn wf(self) -> bool {
        &&& self.retries_left <= self.max_retries
        &&& self.delay_ms * pow2(self.retries_left as nat) <= u64::MAX
    }

    /// A fresh schedule: `max_retries` additional attempts, starting at
    /// `initial_delay_ms`.  The bound keeps every doubled delay within
    /// `u64`; it is the machine's limit, not the schedule's.
    pub fn new(max_retries: u32, initial_delay_ms: u64) -> (s: RetryState)
        requires
            initial_delay_ms * pow2(max_retries as nat) <= u64::MAX,
        ensures
            s.wf(),
            s.max_retries == max_retries,
            s.retries_left == max_retries,
            s.delay_ms == initial_delay_ms,
    {
        RetryState { max_retries, retries_left: max_retries, delay_ms: initial_delay_ms }
    }

    /// Records one failed attempt.  While retries remain, returns the delay
    /// to sleep before the next attempt and doubles it for the attempt
    /// after; once they are exhausted, returns `None`: the caller must give
    /// up and surface the last error.
    pub fn on_failure(&mut self) -> (r: Option<u64>)
        requires
            old(self).wf(),
        ensures
            final(self).wf(),
            final(self).max_retries == old(self).max_retries,
            old(self).retries_left == 0 ==> r is None && *final(self) == *old(self),
            old(self).retries_left > 0 ==> r == Some(old(self).delay_ms),
            old(self).retries_left > 0 ==> final(self).retries_left == old(self).retries_left - 1,
            old(self).retries_left > 0 ==> final(self).delay_ms == old(self).delay_ms * 2,
    {
        if self.retries_left == 0 {
            None
        } else {
            let d = self.delay_ms;
            proof {
                let r = old(self).retries_left as nat;
                lemma_pow2_unfold(r);
                lemma_pow2_pos((r - 1) as nat);
                assert(pow2(r) >= 2);
                lemma_mul_inequality(2, pow2(r) as int, d as int);
                vstd::arithmetic::mul::lemma_mul_is_commutative(2, d as int);
                vstd::arithmetic::mul::lemma_mul_is_commutative(pow2(r) as int, d as int);
                assert(d * 2 <= d * pow2(r));
                lemma_mul_is_associative(d as int, 2, pow2((r - 1) as nat) as int);
                assert((d * 2) * pow2((r - 1) as nat) == d * pow2(r));
            }
            self.delay_ms = self.delay_ms * 2;
            self.retries_left = self.retries_left - 1;
            Some(d)
        }
    }
}

/// Every outcome before the `k`-th (0-based) is an error.
pub open spec fn spec_all_fail_before<T, E>(outcomes: Seq<Result<T, E>>, k: int) -> bool {
    forall|i: int| 0 <= i < k && i < outcomes.len() ==> outcomes[i] is Err
}

/// What a finished retry run looks like: between one and `max_retries + 1`
/// invocations were made, every attempt before the last failed, the last
/// attempt's outcome is the result, and an error result means the attempts
/// were exhausted.
pub open spec fn spec_retry_run<T, E>(
    outcomes: Seq<Result<T, E>>,
    max_retries: nat,
    result: Result<T, E>,
    invocations: nat,
) -> bool {
    &&& 1 <= invocations <= max_retries + 1
    &&& invocations <= outcomes.len()
    &&& spec_all_fail_before(outcomes, invocations - 1)
    &&& result == outcomes[invocations - 1]
    &&& (result is Err ==> invocations == max_retries + 1)
}

/// The result of playing a retry schedule to its end.
#[derive(Debug)]
pub struct RetryRun<T, E> {
    /// The outcome of the last attempt made: the first success, or the
    /// last error after the attempts were exhausted.
    pub result: Result<T, E>,
    /// How many times the operation was invoked.
    pub invocations: usize,
    /// The delay slept after each failed attempt that was retried, in
    /// order: the initial delay, then its doublings.
    pub delays_ms: Vec<u64>,
}

/// Plays one retry schedule against an operation whose attempt outcomes
/// are given in advance: `outcomes[i]` is what the `i`-th invocation
/// returns.  Stops at the first success, returning its value, or after
/// `max_retries + 1` failed invocations, returning the last error.
#[verifier::loop_isolation(false)]
pub fn run_retry_schedule<T, E>(outcomes: Vec<Result<T, E>>, max_retries: u32, initial_delay_ms: u64)
    -> (r: RetryRun<T, E>)
    requires
        outcomes@.len() > max_retries,
        initial_delay_ms * pow2(max_retries as nat) <= u64::MAX,
    ensures
        spec_retry_run(outcomes@, max_retries as nat, r.result, r.invocations as nat),
        r.delays_ms@.len() == r.invocations - 1,
        forall|i: int|
            0 <= i < r.delays_ms@.len() ==> r.delays_ms@[i] == initial_delay_ms * pow2(i as nat),
{
    let ghost all = outcomes@;
    let total = outcomes.len();
    let mut rest = outcomes;
    let mut state = RetryState::new(max_retries, initial_delay_ms);
    let mut delays: Vec<u64> = Vec::new();
    let mut used: usize = 0;
    proof {
        vstd::arithmetic::power2::lemma2_to64();
        assert(all.subrange(0, all.len() as int) =~= all);
    }
    loop
        invariant
            all.len() == total,
            all.len() > max_retries,
            used <= max_retries,
            used + rest@.len() == all.len(),
            rest@ == all.subrange(used as int, all.len() as int),
            spec_all_fail_before(all, used as int),
            state.wf(),
            state.max_retries == max_retries,
            state.retries_left == max_retries - used,
            state.delay_ms == initial_delay_ms * pow2(used as nat),
            delays@.len() == used,
            forall|i: int|
                0 <= i < delays@.len() ==> delays@[i] == initial_delay_ms * pow2(i as nat),
        decreases rest@.len(),
    {
        let ghost prev = rest@;
        let attempt = rest.remove(0);
        used = used + 1;
        proof {
            assert(rest@ =~= all.subrange(used as int, all.len() as int));
            assert(attempt == prev[0]);
            assert(attempt == all[used - 1]);
        }
        match attempt {
            Ok(v) => {
                return RetryRun { result: Ok(v), invocations: used, delays_ms: delays };
            },
            Err(e) => {
                assert(spec_all_fail_before(all, used as int));
                match state.on_failure() {
                    Some(d) => {
                        proof {
                            lemma_pow2_unfold(used as nat);
                            lemma_mul_is_associative(
                                initial_delay_ms as int,
                                pow2((used - 1) as nat) as int,
                                2,
                            );
                        }
                        delays.push(d);
                    },
                    None => {
                        return RetryRun { result: Err(e), invocations: used, delays_ms: delays };
                    },
                }
            },
        }
    }
}

/// Retry helper law: against an operation that fails exactly `k` times and
/// then succeeds, a schedule with `max_retries >= k` ends in the success
/// value of attempt `k`, after exactly `k + 1` invocations.
pub proof fn lemma_retry_first_success<T, E>(
    outcomes: Seq<Result<T, E>>,
    max_retries: nat,
    result: Result<T, E>,
    invocations: nat,
    k: nat,
)
    requires
        spec_retry_run(outcomes, max_retries, result, invocations),
        k <= max_retries,
        k < outcomes.len(),
        spec_all_fail_before(outcomes, k as int),
        outcomes[k as int] is Ok,
    ensures
        invocations == k + 1,
        result == outcomes[k as int],
        result is Ok,
{
    if invocations - 1 < k {
        assert(outcomes[invocations - 1] is Err);
    }
    if invocations - 1 > k {
        assert(outcomes[k as int] is Err);
    }
}

/// Retry helper law: against an operation that always fails, a schedule
/// with `max_retries = n` makes exactly `n + 1` invocations and returns
/// the last attempt's error.
pub proof fn lemma_retry_exhausted<T, E>(
    outcomes: Seq<Result<T, E>>,
    max_retries: nat,
    result: Result<T, E>,
    invocations: nat,
)
    requires
        spec_retry_run(outcomes, max_retries, result, invocations),
        spec_all_fail_before(outcomes, outcomes.len() as int),
    ensures
        invocations == max_retries + 1,
        result is Err,
        result == outcomes[max_retries as int],
{
    assert(outcomes[invocations - 1] is Err);
}

} // verus!
