use vstd::prelude::*;

verus! {

/// Attempts made of one download before it is abandoned.
pub const MAX_ATTEMPTS: u32 = 5;

/// Delay before the second attempt, without jitter, in milliseconds.
pub const BASE_DELAY_MS: u64 = 3000;

/// Longest delay between two attempts, in milliseconds.
pub const MAX_DELAY_MS: u64 = 20000;

/// What to do after a failed attempt.
#[derive(Clone, Copy, Debug, PartialEq, Eq, Structural)]
pub enum RetryDecision {
    /// Wait this many milliseconds, then attempt again.
    RetryAfter(u64),
    /// Give the download up: the error is final.
    GiveUp,
}

/// Delay after the `failures`-th failure before jitter: 3 s, doubling with
/// each further failure.
pub open spec fn backoff_ms(failures: nat) -> nat
    decreases failures,
{
    if failures <= 1 {
        BASE_DELAY_MS as nat
    } else {
        2 * backoff_ms((failures - 1) as nat)
    }
}

/// The backoff with the jitter added, capped at the longest delay.
pub open spec fn jittered_ms(failures: nat, jitter_ms: nat) -> nat {
    let d = backoff_ms(failures) + jitter_ms;
    if d > MAX_DELAY_MS {
        MAX_DELAY_MS as nat
    } else {
        d
    }
}

/// After `failures` failed attempts: give up once all attempts are spent,
/// else wait the jittered backoff.
pub open spec fn decision_after(failures: nat, jitter_ms: nat) -> RetryDecision {
    if failures >= MAX_ATTEMPTS {
        RetryDecision::GiveUp
    } else {
        RetryDecision::RetryAfter(jittered_ms(failures, jitter_ms) as u64)
    }
}

/// Decides, after the `failures`-th failed attempt of a download, whether to
/// try again and after how long; `jitter_ms` is a random addition to the
/// delay.
pub fn next_retry(failures: u32, jitter_ms: u64) -> (r: RetryDecision)
    ensures
        r == decision_after(failures as nat, jitter_ms as nat),
        r == RetryDecision::GiveUp <==> failures >= MAX_ATTEMPTS,
        match r {
            RetryDecision::RetryAfter(d) => BASE_DELAY_MS <= d <= MAX_DELAY_MS,
            RetryDecision::GiveUp => true,
        },
{
    if failures >= MAX_ATTEMPTS {
        return RetryDecision::GiveUp;
    }
    let mut base: u64 = BASE_DELAY_MS;
    let mut k: u32 = 1;
    while k < failures
        invariant
            1 <= k <= failures || (k == 1 && failures == 0),
            failures < MAX_ATTEMPTS,
            base as nat == backoff_ms(k as nat),
            base <= BASE_DELAY_MS * 8,
            k <= 4,
        decreases failures - k,
    {
        proof {
            assert(k < 4);
            assert(backoff_ms((k + 1) as nat) == 2 * backoff_ms(k as nat));
            assert(backoff_ms(k as nat) <= BASE_DELAY_MS * 4) by {
                lemma_backoff_bound(k as nat);
            }
        }
        base = base * 2;
        k += 1;
    }
    assert(backoff_ms(failures as nat) == base as nat) by {
        if failures == 0 {
            assert(backoff_ms(0) == backoff_ms(1));
        }
    }
    proof {
        lemma_backoff_floor(failures as nat);
    }
    if jitter_ms >= MAX_DELAY_MS || base + jitter_ms >= MAX_DELAY_MS {
        RetryDecision::RetryAfter(MAX_DELAY_MS)
    } else {
        RetryDecision::RetryAfter(base + jitter_ms)
    }
}

proof fn lemma_backoff_bound(k: nat)
    requires
        1 <= k <= 3,
    ensures
        backoff_ms(k) <= BASE_DELAY_MS * 4,
{
    reveal_with_fuel(backoff_ms, 3);
}

proof fn lemma_backoff_floor(k: nat)
    ensures
        backoff_ms(k) >= BASE_DELAY_MS,
    decreases k,
{
    if k > 1 {
        lemma_backoff_floor((k - 1) as nat);
    }
}

/// The wait before the second attempt lies between 3 s and 20 s whatever
/// the jitter, and no attempt follows the fifth failure.
pub proof fn retry_schedule_law(jitter_ms: nat)
    ensures
        decision_after(1, jitter_ms) is RetryAfter,
        BASE_DELAY_MS <= decision_after(1, jitter_ms)->RetryAfter_0 <= MAX_DELAY_MS,
        forall|f: nat| f >= MAX_ATTEMPTS ==> #[trigger] decision_after(f, jitter_ms) == RetryDecision::GiveUp,
{
}

} // verus!
