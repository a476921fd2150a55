//! The retry controller: exponential backoff for remote calls that the
//! service refuses because of rate limiting.
//!
//! The controller makes no call and does not sleep itself. Its caller makes
//! the call, reports each failure with its classification, and follows the
//! decision: sleep for the given number of seconds and call again, or give up
//! and hand the error of the call on.

use vstd::prelude::*;

verus! {

/// How a failed remote call is to be treated.
#[derive(Clone, Copy, Debug, PartialEq, Eq, Structural)]
pub enum FailureClass {
    /// The service asked to slow down: wait and try again.
    RateLimited,
    /// Any other failure: give up at once.
    Terminal,
}

/// What the caller does after a failed call.
#[derive(Clone, Copy, Debug, PartialEq, Eq, Structural)]
pub enum RetryDecision {
    /// Sleep this many seconds, then make the call again.
    SleepThenRetry(u64),
    /// Stop and hand the failure to the caller.
    GiveUp,
}

/// The delay in seconds before the re-attempt that follows the `n`-th
/// rate-limited failure (counting from 0): 0, 1, 3, 7, ...
pub open spec fn backoff_delay(n: nat) -> nat
    decreases n,
{
    if n == 0 {
        0
    } else {
        2 * backoff_delay((n - 1) as nat) + 1
    }
}

/// The delay that follows `d`, held at `u64::MAX` once it no longer fits.
pub open spec fn next_delay(d: u64) -> u64 {
    if 2 * d + 1 <= u64::MAX {
        (2 * d + 1) as u64
    } else {
        u64::MAX
    }
}

/// `backoff_delay(n)` held at `u64::MAX`.
pub open spec fn capped_delay(n: nat) -> u64 {
    if backoff_delay(n) <= u64::MAX {
        backoff_delay(n) as u64
    } else {
        u64::MAX
    }
}

/// Ephemeral state of one remote call under retry.
#[derive(Debug)]
pub struct RetryState {
    /// Failed attempts so far (held at `u64::MAX`).
    pub failures: u64,
    /// Seconds to sleep before the next re-attempt.
    pub delay: u64,
    /// The classification of the last failure, if any.
    pub last: Option<FailureClass>,
}

impl RetryState {
    /// The state before the first attempt.
    pub fn new() -> (r: Self)
        ensures
            r.failures == 0,
            r.delay == 0,
            r.last.is_none(),
    {
        RetryState { failures: 0, delay: 0, last: None }
    }

    /// Records a failed attempt and decides what to do next.
    ///
    /// A rate-limited failure asks for a sleep of the current delay, which then
    /// grows to `2 * delay + 1`; a terminal failure gives up at once and leaves
    /// the delay as it was.
    pub fn on_failure(&mut self, class: FailureClass) -> (r: RetryDecision)
        ensures
            final(self).last == Some(class),
            final(self).failures == (if old(self).failures < u64::MAX {
                old(self).failures + 1
            } else {
                u64::MAX as int
            }),
            class == FailureClass::Terminal ==> r == RetryDecision::GiveUp && final(self).delay
                == old(self).delay,
            class == FailureClass::RateLimited ==> r == RetryDecision::SleepThenRetry(
                old(self).delay,
            ) && final(self).delay == next_delay(old(self).delay),
    {
        self.last = Some(class);
        if self.failures < u64::MAX {
            self.failures = self.failures + 1;
        }
        match class {
            FailureClass::Terminal => RetryDecision::GiveUp,
            FailureClass::RateLimited => {
                let d = self.delay;
                self.delay = if d <= (u64::MAX - 1) / 2 {
                    2 * d + 1
                } else {
                    u64::MAX
                };
                RetryDecision::SleepThenRetry(d)
            },
        }
    }
}

/// The capped delays follow the backoff sequence: after `n` rate-limited
/// failures the delay is the `n`-th term of `d_0 = 0, d_(k+1) = 2 * d_k + 1`,
/// held at `u64::MAX`.
pub proof fn lemma_next_delay_follows_backoff(n: nat)
    ensures
        next_delay(capped_delay(n)) == capped_delay(n + 1),
{
    assert(backoff_delay(n + 1) == 2 * backoff_delay(n) + 1);
}

/// Closed form of the backoff sequence: the `n`-th delay is `2^n - 1` seconds.
pub proof fn lemma_backoff_closed_form(n: nat)
    ensures
        backoff_delay(n) + 1 == vstd::arithmetic::power2::pow2(n),
    decreases n,
{
    if n == 0 {
        vstd::arithmetic::power2::lemma2_to64();
    } else {
        vstd::arithmetic::power2::lemma_pow2_unfold(n);
        lemma_backoff_closed_form((n - 1) as nat);
    }
}

} // verus!
