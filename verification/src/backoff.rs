//! Exponential backoff and the retry and reconnect decisions built on it.
use vstd::prelude::*;
use vstd::arithmetic::power2::{lemma_pow2_strictly_increases, lemma_pow2_unfold, lemma2_to64, lemma2_to64_rest, pow2};

verus! {

/// The backoff ceiling used by retries and reconnects.
pub const DEFAULT_MAX_BACKOFF_MS: u64 = 32000;

/// Backoff after `count` failures with `jitter` added, capped at `max_backoff_ms`.
pub open spec fn backoff_ms(count: nat, jitter: int, max_backoff_ms: int) -> int {
    let raw = pow2(count) + jitter;
    if raw < max_backoff_ms {
        raw
    } else {
        max_backoff_ms
    }
}

/// `rand::random_range(0..1000)` of the rand crate: a random jitter below one second;
/// nothing else is known of it.
#[verifier::external_body]
fn random_jitter_ms() -> (res: u64)
    ensures
        res < 1000,
{
    rand::random_range(0..1000u64)
}

/// `2^count`.
pub fn pow2_u64(count: u64) -> (res: u64)
    requires
        count < 64,
    ensures
        res == pow2(count as nat),
{
    proof {
        lemma2_to64();
    }
    let mut r: u64 = 1;
    let mut i: u64 = 0;
    while i < count
        invariant
            i <= count < 64,
            r == pow2(i as nat),
        decreases count - i,
    {
        proof {
            lemma2_to64();
            lemma_pow2_unfold((i + 1) as nat);
            lemma_pow2_strictly_increases((i + 1) as nat, 64);
        }
        r = r * 2;
        i = i + 1;
    }
    r
}

/// Backoff after `count` failures with the given `jitter`: `2^count + jitter`
/// milliseconds, capped at `max_backoff_ms`.
pub fn backoff_with_jitter(count: u64, max_backoff_ms: u64, jitter: u64) -> (res: u64)
    requires
        count < 64,
        jitter < 1000,
    ensures
        res == backoff_ms(count as nat, jitter as int, max_backoff_ms as int),
{
    proof {
        lemma2_to64();
        lemma2_to64_rest();
        if count < 63 {
            lemma_pow2_strictly_increases(count as nat, 63);
        }
    }
    let raw = pow2_u64(count) + jitter;
    if raw < max_backoff_ms {
        raw
    } else {
        max_backoff_ms
    }
}

/// Backoff calculator after Google's algorithm: `2^count` milliseconds plus a random
/// jitter below one second, capped at `max_backoff_ms` (32000 to 64000 ms is the
/// suggested cap). The exponent is the count taken as a `u32`, whose power of two must
/// fit in a `u64`.
pub fn exponential_backoff_ms(count: u64, max_backoff_ms: u64) -> (res: u64)
    requires
        (count as u32) < 64,
    ensures
        exists|jitter: int|
            0 <= jitter < 1000 && res == #[trigger] backoff_ms(
                (count as u32) as nat,
                jitter,
                max_backoff_ms as int,
            ),
        res <= max_backoff_ms,
{
    let exponent: u32 = count as u32;
    let jitter = random_jitter_ms();
    backoff_with_jitter(exponent as u64, max_backoff_ms, jitter)
}

/// What to do after a failed attempt.
#[derive(Debug, PartialEq, Eq, Clone, Copy, Structural)]
pub enum RetryStep {
    /// Wait and try again; this is retry number `attempt` (counting from 1).
    Retry { attempt: u64 },
    /// Hand the error to the caller.
    GiveUp,
}

/// One retry decision: after an error, with `attempts` retries made of `max_attempts`
/// allowed, the step taken and the retry count after it.
pub open spec fn retry_step(attempts: u64, max_attempts: u64, retryable: bool) -> (RetryStep, u64) {
    if attempts < max_attempts && retryable {
        (RetryStep::Retry { attempt: (attempts + 1) as u64 }, (attempts + 1) as u64)
    } else {
        (RetryStep::GiveUp, attempts)
    }
}

/// How many retries a retry loop makes when its successive calls fail with errors of the
/// given retryability (it stops at the first success, or when it gives up).
pub open spec fn retries_made(attempts: u64, max_attempts: u64, errors: Seq<bool>) -> nat
    decreases errors.len(),
{
    if errors.len() == 0 {
        0
    } else {
        match retry_step(attempts, max_attempts, errors[0]) {
            (RetryStep::Retry { .. }, next) => 1 + retries_made(next, max_attempts, errors.drop_first()),
            (RetryStep::GiveUp, _) => 0,
        }
    }
}

/// The decisions of a retry loop that tries an operation once and then retries it up
/// to `max_attempts` times while its errors are retryable.
#[derive(Debug, Clone)]
pub struct RetryState {
    attempts: u64,
    max_attempts: u64,
}

impl RetryState {
    /// Retries made so far.
    pub closed spec fn spec_attempts(&self) -> u64 {
        self.attempts
    }

    /// The retry budget.
    pub closed spec fn spec_max_attempts(&self) -> u64 {
        self.max_attempts
    }

    /// No more retries are made than the budget allows.
    pub closed spec fn wf(&self) -> bool {
        self.attempts <= self.max_attempts
    }

    pub fn new(max_attempts: u64) -> (res: Self)
        ensures
            res.wf(),
            res.spec_attempts() == 0,
            res.spec_max_attempts() == max_attempts,
    {
        RetryState { attempts: 0, max_attempts }
    }

    pub fn attempts(&self) -> (res: u64)
        ensures
            res == self.spec_attempts(),
    {
        self.attempts
    }

    /// Decides after an error: retry while the budget lasts and the error is retryable,
    /// otherwise give up.
    pub fn on_error(&mut self, retryable: bool) -> (res: RetryStep)
        requires
            old(self).wf(),
        ensures
            final(self).wf(),
            final(self).spec_max_attempts() == old(self).spec_max_attempts(),
            (res, final(self).spec_attempts()) == retry_step(
                old(self).spec_attempts(),
                old(self).spec_max_attempts(),
                retryable,
            ),
            !retryable ==> res == RetryStep::GiveUp && final(self).spec_attempts() == old(
                self,
            ).spec_attempts(),
            retryable && old(self).spec_attempts() < old(self).spec_max_attempts() ==> res
                == (RetryStep::Retry { attempt: (old(self).spec_attempts() + 1) as u64 })
                && final(self).spec_attempts() == old(self).spec_attempts() + 1,
            retryable && old(self).spec_attempts() >= old(self).spec_max_attempts() ==> res
                == RetryStep::GiveUp && final(self).spec_attempts() == old(self).spec_attempts(),
    {
        if self.attempts < self.max_attempts && retryable {
            self.attempts = self.attempts + 1;
            RetryStep::Retry { attempt: self.attempts }
        } else {
            RetryStep::GiveUp
        }
    }
}

/// A non-retryable error is handed to the caller at once, whatever retries were made
/// before: the step gives up and the count stays, and a run of errors that starts with
/// a non-retryable one makes no retry. A retryable error is retried, as retry number
/// `attempts + 1`, exactly while the budget lasts.
pub proof fn law_non_retryable_gives_up(attempts: u64, max_attempts: u64, errors: Seq<bool>)
    ensures
        retry_step(attempts, max_attempts, false) == (RetryStep::GiveUp, attempts),
        errors.len() > 0 && !errors[0] ==> retries_made(attempts, max_attempts, errors) == 0,
        attempts < max_attempts ==> retry_step(attempts, max_attempts, true) == (
            (RetryStep::Retry { attempt: (attempts + 1) as u64 }),
            (attempts + 1) as u64,
        ),
        attempts >= max_attempts ==> retry_step(attempts, max_attempts, true) == (
            RetryStep::GiveUp,
            attempts,
        ),
{
}

/// A retry loop calls its operation at most `max_attempts + 1` times: whatever errors
/// it meets, it makes no more retries than the budget left.
pub proof fn law_retries_bounded(attempts: u64, max_attempts: u64, errors: Seq<bool>)
    requires
        attempts <= max_attempts,
    ensures
        retries_made(attempts, max_attempts, errors) <= max_attempts - attempts,
    decreases errors.len(),
{
    if errors.len() > 0 {
        let (_, next) = retry_step(attempts, max_attempts, errors[0]);
        if attempts < max_attempts && errors[0] {
            law_retries_bounded(next, max_attempts, errors.drop_first());
        }
    }
}

/// Retryable errors are retried until the budget is spent: a run of retryable errors
/// makes exactly as many retries as the budget allows or as errors occur.
pub proof fn law_retryable_errors_use_budget(attempts: u64, max_attempts: u64, n: nat)
    requires
        attempts <= max_attempts,
    ensures
        retries_made(attempts, max_attempts, Seq::new(n, |i: int| true)) == if n < max_attempts
            - attempts {
            n as int
        } else {
            max_attempts - attempts
        },
    decreases n,
{
    let errors = Seq::new(n, |i: int| true);
    if n > 0 && attempts < max_attempts {
        law_retryable_errors_use_budget((attempts + 1) as u64, max_attempts, (n - 1) as nat);
        assert(errors.drop_first() =~= Seq::new((n - 1) as nat, |i: int| true));
    }
}

/// The connection attempts of a stream reactor: each failed connect waits
/// `backoff(attempts)` and counts up; a successful connect starts the count afresh.
#[derive(Debug, Clone)]
pub struct ReconnectState {
    pub connection_attempts: u64,
}

impl ReconnectState {
    pub fn new() -> (res: Self)
        ensures
            res.connection_attempts == 0,
    {
        ReconnectState { connection_attempts: 0 }
    }

    /// After a failed connect: the failure count to back off by, counted before this failure.
    pub fn on_connect_error(&mut self) -> (res: u64)
        requires
            old(self).connection_attempts < u64::MAX,
        ensures
            res == old(self).connection_attempts,
            final(self).connection_attempts == old(self).connection_attempts + 1,
    {
        let n = self.connection_attempts;
        self.connection_attempts = n + 1;
        n
    }

    pub fn on_connected(&mut self)
        ensures
            final(self).connection_attempts == 0,
    {
        self.connection_attempts = 0;
    }
}

} // verus!
