//! Retrying a fallible operation with exponential backoff. The library
//! decides; the caller performs each attempt and each wait.
use vstd::prelude::*;

verus! {

/// How often to try, and how long to wait in between.
#[derive(Debug, Clone, Copy, PartialEq, Eq, Structural)]
pub struct RetryPolicy {
    pub max_attempts: u32,
    pub base_delay_ms: u64,
    pub max_delay_ms: u64,
}

pub open spec fn pow2(n: nat) -> nat
    decreases n,
{
    if n == 0 {
        1
    } else {
        2 * pow2((n - 1) as nat)
    }
}

impl RetryPolicy {
    /// The wait after failed attempt `k` (counting from 1):
    /// `min(base * 2^(k-1), max)`.
    pub open spec fn spec_delay(&self, k: nat) -> u64
        recommends
            k >= 1,
    {
        let d = self.base_delay_ms * pow2((k - 1) as nat);
        if d <= self.max_delay_ms {
            d as u64
        } else {
            self.max_delay_ms
        }
    }

    /// The wait after failed attempt `attempt`.
    pub fn backoff_delay(&self, attempt: u32) -> (r: u64)
        requires
            attempt >= 1,
        ensures
            r == self.spec_delay(attempt as nat),
    {
        let max = self.max_delay_ms;
        let mut d: u64 = if self.base_delay_ms <= max {
            self.base_delay_ms
        } else {
            max
        };
        let mut j: u32 = 1;
        proof {
            assert(pow2(0) == 1);
            assert(self.base_delay_ms * pow2(0) == self.base_delay_ms);
        }
        while j < attempt
            invariant
                1 <= j <= attempt,
                max == self.max_delay_ms,
                d == self.spec_delay(j as nat),
            decreases attempt - j,
        {
            proof {
                lemma_delay_step(*self, j as nat);
                let p = self.base_delay_ms * pow2((j - 1) as nat);
                if p > max {
                    assert(2 * p > max);
                }
            }
            d = if d > max / 2 {
                max
            } else {
                d * 2
            };
            j = j + 1;
        }
        d
    }
}

proof fn lemma_delay_step(policy: RetryPolicy, j: nat)
    requires
        j >= 1,
    ensures
        ({
            let p = policy.base_delay_ms * pow2((j - 1) as nat);
            &&& p >= 0
            &&& policy.spec_delay(j + 1) == if 2 * p <= policy.max_delay_ms {
                (2 * p) as u64
            } else {
                policy.max_delay_ms
            }
        }),
{
    let b = policy.base_delay_ms as int;
    let p = pow2((j - 1) as nat) as int;
    assert(pow2(j) == 2 * pow2((j - 1) as nat));
    assert(((j + 1) - 1) as nat == j);
    assert(b * (2 * p) == 2 * (b * p)) by (nonlinear_arith);
    assert(b * p >= 0) by (nonlinear_arith)
        requires
            b >= 0,
            p >= 0,
    ;
    assert(policy.base_delay_ms * pow2(j) == b * (2 * p));
}

/// What to do after an attempt.
#[derive(Debug, Clone, Copy, PartialEq, Eq, Structural)]
pub enum RetryDecision {
    /// The attempt succeeded: return its result.
    Succeeded,
    /// Wait this many milliseconds, then attempt again.
    WaitThenRetry(u64),
    /// Every attempt failed: report the last error with the attempt count.
    GaveUp { attempts: u32 },
}

/// The attempts made so far under a policy.
#[derive(Debug, Clone, Copy, PartialEq, Eq, Structural)]
pub struct Retry {
    pub policy: RetryPolicy,
    pub attempts: u32,
}

/// After `attempts` attempts, the decision for one more outcome.
pub open spec fn decide(policy: RetryPolicy, attempts: u32, succeeded: bool) -> RetryDecision {
    if succeeded {
        RetryDecision::Succeeded
    } else if attempts + 1 >= policy.max_attempts {
        RetryDecision::GaveUp { attempts: (attempts + 1) as u32 }
    } else {
        RetryDecision::WaitThenRetry(policy.spec_delay((attempts + 1) as nat))
    }
}

/// Running the policy against a sequence of outcomes: the number of
/// attempts made, the waits in between, and whether it ended in success.
pub open spec fn run(policy: RetryPolicy, attempts: u32, outcomes: Seq<bool>) -> (nat, Seq<u64>, bool)
    decreases outcomes.len(),
{
    if outcomes.len() == 0 || attempts >= policy.max_attempts {
        (0, Seq::empty(), false)
    } else {
        match decide(policy, attempts, outcomes[0]) {
            RetryDecision::Succeeded => (1, Seq::empty(), true),
            RetryDecision::GaveUp { .. } => (1, Seq::empty(), false),
            RetryDecision::WaitThenRetry(d) => {
                let rest = run(policy, (attempts + 1) as u32, outcomes.drop_first());
                (rest.0 + 1, seq![d] + rest.1, rest.2)
            },
        }
    }
}

impl Retry {
    /// No attempt made yet.
    pub fn new(policy: RetryPolicy) -> (r: Retry)
        ensures
            r.policy == policy,
            r.attempts == 0,
    {
        Retry { policy, attempts: 0 }
    }

    /// Whether another attempt is allowed.
    pub fn may_attempt(&self) -> (r: bool)
        ensures
            r == (self.attempts < self.policy.max_attempts),
    {
        self.attempts < self.policy.max_attempts
    }

    /// Records the outcome of an attempt and decides what comes next.
    pub fn record(&mut self, succeeded: bool) -> (r: RetryDecision)
        requires
            old(self).attempts < old(self).policy.max_attempts,
        ensures
            final(self).policy == old(self).policy,
            final(self).attempts == old(self).attempts + 1,
            r == decide(old(self).policy, old(self).attempts, succeeded),
    {
        self.attempts = self.attempts + 1;
        if succeeded {
            RetryDecision::Succeeded
        } else if self.attempts >= self.policy.max_attempts {
            RetryDecision::GaveUp { attempts: self.attempts }
        } else {
            RetryDecision::WaitThenRetry(self.policy.backoff_delay(self.attempts))
        }
    }
}

/// An operation that fails `f` times and then succeeds, with `f` below the
/// attempt limit, is attempted exactly `f + 1` times, succeeds, and is
/// waited on after each failure `k` for `min(base * 2^(k-1), max)`.
pub proof fn lemma_retry_until_success(policy: RetryPolicy, f: nat)
    requires
        f < policy.max_attempts,
    ensures
        ({
            let outcomes = Seq::new(f, |i: int| false).push(true);
            let r = run(policy, 0, outcomes);
            &&& r.0 == f + 1
            &&& r.1 == Seq::new(f, |i: int| policy.spec_delay((i + 1) as nat))
            &&& r.2
        }),
{
    lemma_run_from(policy, 0, f);
    assert(Seq::new(f, |i: int| policy.spec_delay((0 + i + 1) as nat)) =~= Seq::new(
        f,
        |i: int| policy.spec_delay((i + 1) as nat),
    ));
}

proof fn lemma_run_from(policy: RetryPolicy, a: u32, f: nat)
    requires
        a + f < policy.max_attempts,
    ensures
        ({
            let r = run(policy, a, Seq::new(f, |i: int| false).push(true));
            &&& r.0 == f + 1
            &&& r.1 == Seq::new(f, |i: int| policy.spec_delay((a + i + 1) as nat))
            &&& r.2
        }),
    decreases f,
{
    let outcomes = Seq::new(f, |i: int| false).push(true);
    if f > 0 {
        lemma_run_from(policy, (a + 1) as u32, (f - 1) as nat);
        assert(outcomes.drop_first() =~= Seq::new((f - 1) as nat, |i: int| false).push(true));
        assert(outcomes[0] == false);
        let rest = run(policy, (a + 1) as u32, outcomes.drop_first());
        assert(seq![policy.spec_delay((a + 1) as nat)] + rest.1 =~= Seq::new(
            f,
            |i: int| policy.spec_delay((a + i + 1) as nat),
        ));
    } else {
        assert(outcomes[0] == true);
        assert(Seq::new(f, |i: int| policy.spec_delay((a + i + 1) as nat)) =~= Seq::<u64>::empty());
    }
}

} // verus!
