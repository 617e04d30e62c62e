use vstd::prelude::*;

verus! {

/// Delay between attempts when retries are enabled but no delay is configured.
pub const DEFAULT_RETRY_TIMEOUT_MS: u64 = 1000;

/// How often, and how far apart, a failed delivery is tried again.
///
/// `max_retry` counts the retries after the first attempt, so a delivery makes
/// at most `max_retry + 1` attempts.
#[derive(Clone, Copy, Debug, PartialEq, Eq, Structural)]
pub struct RetryPolicy {
    pub max_retry: u32,
    pub retry_timeout_ms: u64,
}

/// What the caller does once an attempt has finished.
#[derive(Clone, Copy, Debug, PartialEq, Eq, Structural)]
pub enum Step {
    /// Return the result of the attempt that just finished.
    Finish,
    /// Wait `delay_ms` milliseconds, then make attempt number `next_attempt`.
    Retry { delay_ms: u64, next_attempt: u32 },
}

impl RetryPolicy {
    pub open spec fn spec_from_options(max_retry: Option<u32>, retry_timeout_ms: Option<u64>) -> RetryPolicy {
        RetryPolicy {
            max_retry: match max_retry {
                Some(n) => n,
                None => 0,
            },
            retry_timeout_ms: match retry_timeout_ms {
                Some(t) => t,
                None => DEFAULT_RETRY_TIMEOUT_MS,
            },
        }
    }

    /// Resolves the optional settings once: no retry and a one second delay
    /// unless configured otherwise.
    pub fn from_options(max_retry: Option<u32>, retry_timeout_ms: Option<u64>) -> (r: RetryPolicy)
        ensures
            r == Self::spec_from_options(max_retry, retry_timeout_ms),
    {
        let max_retry = match max_retry {
            Some(n) => n,
            None => 0,
        };
        let retry_timeout_ms = match retry_timeout_ms {
            Some(t) => t,
            None => DEFAULT_RETRY_TIMEOUT_MS,
        };
        RetryPolicy { max_retry, retry_timeout_ms }
    }

    /// The decision after attempt `attempt` (counted from 0): stop on success
    /// or once the retries are used up, else wait the fixed delay and go on.
    pub open spec fn spec_after_attempt(self, attempt: nat, succeeded: bool) -> Step {
        if succeeded || attempt >= self.max_retry {
            Step::Finish
        } else {
            Step::Retry { delay_ms: self.retry_timeout_ms, next_attempt: (attempt + 1) as u32 }
        }
    }

    pub fn after_attempt(&self, attempt: u32, succeeded: bool) -> (r: Step)
        requires
            attempt <= self.max_retry,
        ensures
            r == self.spec_after_attempt(attempt as nat, succeeded),
    {
        if succeeded || attempt >= self.max_retry {
            Step::Finish
        } else {
            Step::Retry { delay_ms: self.retry_timeout_ms, next_attempt: attempt + 1 }
        }
    }

    /// Number of attempts that a delivery makes from attempt `k` on, when
    /// attempt `i` would give `outcomes[i]`.
    pub open spec fn attempts_from<V, E>(self, outcomes: Seq<Result<V, E>>, k: nat) -> nat
        decreases self.max_retry - k,
    {
        if k >= self.max_retry {
            k + 1
        } else {
            match self.spec_after_attempt(k, outcomes[k as int] is Ok) {
                Step::Finish => k + 1,
                Step::Retry { .. } => self.attempts_from(outcomes, k + 1),
            }
        }
    }

    /// The delays waited between attempts from attempt `k` on.
    pub open spec fn delays_from<V, E>(self, outcomes: Seq<Result<V, E>>, k: nat) -> Seq<u64>
        decreases self.max_retry - k,
    {
        if k >= self.max_retry {
            Seq::empty()
        } else {
            match self.spec_after_attempt(k, outcomes[k as int] is Ok) {
                Step::Finish => Seq::empty(),
                Step::Retry { delay_ms, .. } => seq![delay_ms] + self.delays_from(outcomes, k + 1),
            }
        }
    }

    /// Number of attempts of a whole delivery.
    pub open spec fn attempts<V, E>(self, outcomes: Seq<Result<V, E>>) -> nat {
        self.attempts_from(outcomes, 0)
    }

    /// Delays waited during a whole delivery, in order.
    pub open spec fn delays<V, E>(self, outcomes: Seq<Result<V, E>>) -> Seq<u64> {
        self.delays_from(outcomes, 0)
    }

    /// What a whole delivery returns: the result of its last attempt.
    pub open spec fn delivered<V, E>(self, outcomes: Seq<Result<V, E>>) -> Result<V, E> {
        outcomes[self.attempts(outcomes) - 1]
    }
}

proof fn lemma_attempts_bounds<V, E>(p: RetryPolicy, outcomes: Seq<Result<V, E>>, k: nat)
    requires
        k <= p.max_retry,
    ensures
        k < p.attempts_from(outcomes, k) <= p.max_retry + 1,
    decreases p.max_retry - k,
{
    if k < p.max_retry && !(outcomes[k as int] is Ok) {
        lemma_attempts_bounds(p, outcomes, k + 1);
    }
}

proof fn lemma_all_fail_from<V, E>(p: RetryPolicy, outcomes: Seq<Result<V, E>>, k: nat)
    requires
        k <= p.max_retry,
        outcomes.len() > p.max_retry,
        forall|i: int| k <= i <= p.max_retry ==> outcomes[i] is Err,
    ensures
        p.attempts_from(outcomes, k) == p.max_retry + 1,
        p.delays_from(outcomes, k) =~= Seq::new((p.max_retry - k) as nat, |i: int| p.retry_timeout_ms),
    decreases p.max_retry - k,
{
    if k < p.max_retry {
        lemma_all_fail_from(p, outcomes, k + 1);
    }
}

proof fn lemma_first_success_from<V, E>(p: RetryPolicy, outcomes: Seq<Result<V, E>>, k: nat, s: nat)
    requires
        k <= s <= p.max_retry,
        outcomes.len() > p.max_retry,
        outcomes[s as int] is Ok,
        forall|i: int| k <= i < s ==> outcomes[i] is Err,
    ensures
        p.attempts_from(outcomes, k) == s + 1,
        p.delays_from(outcomes, k) =~= Seq::new((s - k) as nat, |i: int| p.retry_timeout_ms),
    decreases s - k,
{
    if k < s {
        lemma_first_success_from(p, outcomes, k + 1, s);
    }
}

/// Without retries a delivery makes exactly one attempt and waits nowhere,
/// whatever that attempt gives.
pub proof fn law_no_retry_single_attempt<V, E>(p: RetryPolicy, outcomes: Seq<Result<V, E>>)
    requires
        p.max_retry == 0,
        outcomes.len() > 0,
    ensures
        p.attempts(outcomes) == 1,
        p.delays(outcomes).len() == 0,
        p.delivered(outcomes) == outcomes[0],
{
}

/// When every attempt fails, a delivery makes `max_retry + 1` attempts with
/// the fixed delay between each two of them, and returns the last failure.
pub proof fn law_persistent_failure<V, E>(p: RetryPolicy, outcomes: Seq<Result<V, E>>)
    requires
        outcomes.len() > p.max_retry,
        forall|i: int| 0 <= i <= p.max_retry ==> outcomes[i] is Err,
    ensures
        p.attempts(outcomes) == p.max_retry + 1,
        p.delays(outcomes) =~= Seq::new(p.max_retry as nat, |i: int| p.retry_timeout_ms),
        p.delivered(outcomes) == outcomes[p.max_retry as int],
{
    lemma_all_fail_from(p, outcomes, 0);
}

/// When attempt `k` is the first to succeed, no attempt follows it, `k`
/// delays were waited, and its value is what the delivery returns.
pub proof fn law_stop_at_first_success<V, E>(p: RetryPolicy, outcomes: Seq<Result<V, E>>, k: nat)
    requires
        k <= p.max_retry,
        outcomes.len() > p.max_retry,
        outcomes[k as int] is Ok,
        forall|i: int| 0 <= i < k ==> outcomes[i] is Err,
    ensures
        p.attempts(outcomes) == k + 1,
        p.delays(outcomes) =~= Seq::new(k, |i: int| p.retry_timeout_ms),
        p.delivered(outcomes) == outcomes[k as int],
{
    lemma_first_success_from(p, outcomes, 0, k);
}

/// A failed attempt, of whatever kind, is followed by a wait of the fixed
/// delay and the next attempt as long as retries are left.
pub proof fn law_failure_is_retried(p: RetryPolicy, attempt: nat)
    requires
        attempt < p.max_retry,
    ensures
        p.spec_after_attempt(attempt, false) == (Step::Retry {
            delay_ms: p.retry_timeout_ms,
            next_attempt: (attempt + 1) as u32,
        }),
{
}

/// A value that a delivery returns is the value of one of the attempts that
/// it made.
pub proof fn law_delivered_comes_from_an_attempt<V, E>(p: RetryPolicy, outcomes: Seq<Result<V, E>>, v: V)
    requires
        outcomes.len() > p.max_retry,
        p.delivered(outcomes) == Ok::<V, E>(v),
    ensures
        exists|k: int| 0 <= k < p.attempts(outcomes) && outcomes[k] == Ok::<V, E>(v),
{
    lemma_attempts_bounds(p, outcomes, 0);
    let k = p.attempts(outcomes) - 1;
    assert(outcomes[k] == Ok::<V, E>(v));
}

} // verus!
