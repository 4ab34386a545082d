//! Retry with exponential backoff for batch uploads.
//!
//! A batch request is retried up to a fixed attempt count, waiting
//! `base ^ attempt` seconds after the failed attempt with that 1-based
//! number; after exhaustion the last observed error is returned. The
//! realtime path is never retried.

use vstd::prelude::*;
use vstd::arithmetic::power::pow;
use vstd::arithmetic::power::lemma_pow_increases;

verus! {

/// How a failed batch attempt is followed up.
#[derive(Debug, Clone, PartialEq, Eq, Structural)]
pub enum RetryDecision {
    /// Wait this many seconds, re-read the input fresh, and try again.
    Retry { delay_secs: u64 },
    /// Every configured attempt failed; surface the last error.
    GiveUp,
}

/// Retry policy of the batch path: a maximum attempt count and the
/// backoff base.
pub struct RetryPolicy {
    /// Attempts made before giving up, counting the first.
    pub max_attempts: u32,
    /// The wait after the `a`-th failed attempt is `base ^ a` seconds.
    pub backoff_base_secs: u64,
}

impl RetryPolicy {
    /// Policy bounds that keep every backoff delay in machine range.
    pub open spec fn wf(&self) -> bool {
        &&& 1 <= self.max_attempts <= 10
        &&& 1 <= self.backoff_base_secs <= 8
    }

    /// The default batch policy: three attempts, doubling backoff.
    pub fn new() -> (p: Self)
        ensures
            p.wf(),
            p.max_attempts == 3,
            p.backoff_base_secs == 2,
    {
        RetryPolicy { max_attempts: 3, backoff_base_secs: 2 }
    }

    /// `base ^ attempt` seconds, the wait after the failed attempt with
    /// that 1-based number.
    pub fn backoff_delay(&self, attempt: u32) -> (delay: u64)
        requires
            self.wf(),
            attempt <= self.max_attempts,
        ensures
            delay == pow(self.backoff_base_secs as int, attempt as nat),
    {
        let mut delay: u64 = 1;
        let mut i: u32 = 0;
        proof {
            vstd::arithmetic::power::lemma_pow0(self.backoff_base_secs as int);
            vstd::arithmetic::power::lemma_pow0(8);
        }
        while i < attempt
            invariant
                i <= attempt <= 10,
                1 <= self.backoff_base_secs <= 8,
                delay == pow(self.backoff_base_secs as int, i as nat),
                delay <= pow(8, i as nat),
            decreases attempt - i,
        {
            proof {
                lemma_pow_increases(8, i as nat, 9);
                assert(pow(8, 9) == 134217728) by {
                    reveal_with_fuel(pow, 10);
                }
                assert(delay * self.backoff_base_secs <= pow(8, i as nat) * 8)
                    by (nonlinear_arith)
                    requires
                        0 <= delay <= pow(8, i as nat),
                        1 <= self.backoff_base_secs <= 8,
                ;
                assert(pow(self.backoff_base_secs as int, (i + 1) as nat) == pow(
                    self.backoff_base_secs as int,
                    i as nat,
                ) * self.backoff_base_secs) by {
                    vstd::arithmetic::power::lemma_pow_adds(
                        self.backoff_base_secs as int,
                        i as nat,
                        1,
                    );
                    vstd::arithmetic::power::lemma_pow1(self.backoff_base_secs as int);
                }
                assert(pow(8, (i + 1) as nat) == pow(8, i as nat) * 8) by {
                    vstd::arithmetic::power::lemma_pow_adds(8, i as nat, 1);
                    vstd::arithmetic::power::lemma_pow1(8);
                }
            }
            delay = delay * self.backoff_base_secs;
            i = i + 1;
        }
        delay
    }
}

/// The state of one retried batch transcription.
pub struct RetrySession {
    /// Attempts completed so far.
    pub attempts_made: u32,
    /// Whether the session ended (success or exhaustion).
    pub finished: bool,
}

impl RetrySession {
    /// A session with no attempt made yet.
    pub fn new() -> (s: Self)
        ensures
            s.attempts_made == 0,
            !s.finished,
    {
        RetrySession { attempts_made: 0, finished: false }
    }

    /// Account for a successful attempt: the session ends at once with
    /// that attempt's transcript.
    pub fn record_success(&mut self)
        requires
            !old(self).finished,
            old(self).attempts_made < u32::MAX,
        ensures
            final(self).attempts_made == old(self).attempts_made + 1,
            final(self).finished,
    {
        self.attempts_made = self.attempts_made + 1;
        self.finished = true;
    }

    /// Account for a failed attempt: retry after the backoff delay while
    /// attempts remain, give up (returning the last error) once the
    /// configured maximum is reached.
    pub fn record_failure(&mut self, policy: &RetryPolicy) -> (d: RetryDecision)
        requires
            !old(self).finished,
            policy.wf(),
            old(self).attempts_made < policy.max_attempts,
        ensures
            final(self).attempts_made == old(self).attempts_made + 1,
            final(self).attempts_made < policy.max_attempts ==> d == (RetryDecision::Retry {
                delay_secs: pow(
                    policy.backoff_base_secs as int,
                    (old(self).attempts_made + 1) as nat,
                ) as u64,
            }) && !final(self).finished,
            final(self).attempts_made == policy.max_attempts ==> d == RetryDecision::GiveUp
                && final(self).finished,
    {
        self.attempts_made = self.attempts_made + 1;
        if self.attempts_made < policy.max_attempts {
            let delay = policy.backoff_delay(self.attempts_made);
            RetryDecision::Retry { delay_secs: delay }
        } else {
            self.finished = true;
            RetryDecision::GiveUp
        }
    }
}

/// Attempts a retried run makes when attempt `i` (0-based) succeeds iff
/// `outcomes[i]`, with at most `max` attempts: it stops at the first
/// success, or at the `max`-th failure.
pub open spec fn spec_attempts_used(outcomes: Seq<bool>, max: int) -> int
    decreases outcomes.len(),
{
    if max <= 0 || outcomes.len() == 0 {
        0
    } else if outcomes[0] {
        1
    } else if max == 1 {
        1
    } else {
        1 + spec_attempts_used(outcomes.drop_first(), max - 1)
    }
}

/// Whether a retried run ends in success.
pub open spec fn spec_retry_succeeds(outcomes: Seq<bool>, max: int) -> bool
    decreases outcomes.len(),
{
    if max <= 0 || outcomes.len() == 0 {
        false
    } else if outcomes[0] {
        true
    } else if max == 1 {
        false
    } else {
        spec_retry_succeeds(outcomes.drop_first(), max - 1)
    }
}

/// A run whose network layer first succeeds on attempt `k` (0-based,
/// within the allowed attempts) returns that attempt's transcript, having
/// made exactly `k + 1` attempts.
pub proof fn lemma_retry_first_success(outcomes: Seq<bool>, max: int, k: int)
    requires
        0 <= k < max,
        k < outcomes.len(),
        outcomes[k],
        forall|j: int| 0 <= j < k ==> !outcomes[j],
    ensures
        spec_retry_succeeds(outcomes, max),
        spec_attempts_used(outcomes, max) == k + 1,
    decreases k,
{
    if k > 0 {
        lemma_retry_first_success(outcomes.drop_first(), max - 1, k - 1);
    }
}

/// A run whose first `max` attempts all fail gives up with the last
/// observed error after exactly `max` attempts.
pub proof fn lemma_retry_exhaustion(outcomes: Seq<bool>, max: int)
    requires
        1 <= max <= outcomes.len(),
        forall|j: int| 0 <= j < max ==> !outcomes[j],
    ensures
        !spec_retry_succeeds(outcomes, max),
        spec_attempts_used(outcomes, max) == max,
    decreases max,
{
    if max > 1 {
        lemma_retry_exhaustion(outcomes.drop_first(), max - 1);
    }
}

/// Replay a sequence of attempt outcomes through the retry machine, as
/// the batch uploader's driver does with real attempts: returns how many
/// attempts were made and whether the run ended in success.
pub fn retry_verdict(outcomes: &Vec<bool>, policy: &RetryPolicy) -> (r: (u32, bool))
    requires
        policy.wf(),
        outcomes@.len() >= policy.max_attempts,
    ensures
        r.0 == spec_attempts_used(outcomes@, policy.max_attempts as int),
        r.1 == spec_retry_succeeds(outcomes@, policy.max_attempts as int),
{
    let mut session = RetrySession::new();
    let mut i: usize = 0;
    let mut success: bool = false;
    while !session.finished
        invariant
            policy.wf(),
            outcomes@.len() >= policy.max_attempts,
            session.attempts_made == i,
            i <= policy.max_attempts,
            !session.finished ==> i < policy.max_attempts && forall|j: int|
                0 <= j < i ==> !outcomes@[j],
            !session.finished ==> !success,
            session.finished ==> spec_attempts_used(outcomes@, policy.max_attempts as int)
                == i && spec_retry_succeeds(outcomes@, policy.max_attempts as int) == success,
        decreases policy.max_attempts - i,
    {
        let ok = outcomes[i];
        if ok {
            session.record_success();
            success = true;
            proof {
                lemma_retry_first_success(outcomes@, policy.max_attempts as int, i as int);
            }
        } else {
            let _ = session.record_failure(policy);
            proof {
                if session.finished {
                    lemma_retry_exhaustion(outcomes@, policy.max_attempts as int);
                }
            }
        }
        i = i + 1;
    }
    (session.attempts_made, success)
}

} // verus!
