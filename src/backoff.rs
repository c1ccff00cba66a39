use vstd::prelude::*;

verus! {

/// Delay, in seconds, before the first retry of a failed operation.
pub const INITIAL_DELAY_SECS: u64 = 2;

/// Once the next delay would exceed this many seconds, the operation is abandoned.
pub const MAX_DELAY_SECS: u64 = 3600;

/// The delay after the `n`-th failure, counting from zero: `2 * 2^n`.
pub open spec fn delay_at(n: nat) -> nat
    decreases n,
{
    if n == 0 {
        INITIAL_DELAY_SECS as nat
    } else {
        2 * delay_at((n - 1) as nat)
    }
}

/// What to do after a failed attempt: wait `wait_secs`, then try again when `retry` holds,
/// else give up.
#[derive(Debug, Clone, Copy, PartialEq, Eq, Structural)]
pub struct RetryStep {
    pub wait_secs: u64,
    pub retry: bool,
}

/// Capped exponential backoff: the delay starts at two seconds and doubles
/// after every failed attempt.
pub struct Backoff {
    pub delay: u64,
}

impl Backoff {
    /// The backoff can still be asked for a step.
    pub open spec fn wf(&self) -> bool {
        1 <= self.delay <= MAX_DELAY_SECS
    }

    pub fn new() -> (r: Backoff)
        ensures
            r.delay == INITIAL_DELAY_SECS,
            r.wf(),
    {
        Backoff { delay: INITIAL_DELAY_SECS }
    }

    /// After a failed attempt: wait the current delay, double it, and retry only while the
    /// doubled delay stays within the cap.
    pub fn on_failure(&mut self) -> (r: RetryStep)
        requires
            old(self).wf(),
        ensures
            r.wait_secs == old(self).delay,
            final(self).delay == 2 * old(self).delay,
            r.retry == (2 * old(self).delay <= MAX_DELAY_SECS),
            final(self).wf() == r.retry,
    {
        let wait_secs = self.delay;
        self.delay = self.delay * 2;
        RetryStep { wait_secs, retry: self.delay <= MAX_DELAY_SECS }
    }

    /// Every wait of a chain of failures, from the first failure to the one after which the
    /// operation is abandoned.
    pub fn schedule() -> (r: Vec<u64>)
        ensures
            r@.len() == 11,
            forall|i: int| 0 <= i < r@.len() ==> r@[i] == delay_at(i as nat),
    {
        let mut b = Backoff::new();
        let mut waits: Vec<u64> = Vec::new();
        proof {
            lemma_backoff_schedule();
        }
        loop
            invariant
                b.wf(),
                waits@.len() <= 10,
                b.delay == delay_at(waits@.len() as nat),
                forall|i: int| 0 <= i < waits@.len() ==> waits@[i] == delay_at(i as nat),
                forall|n: nat| n < 10 ==> #[trigger] delay_at(n + 1) <= MAX_DELAY_SECS,
                delay_at(11) > MAX_DELAY_SECS,
            decreases MAX_DELAY_SECS - b.delay,
        {
            let step = b.on_failure();
            waits.push(step.wait_secs);
            if !step.retry {
                assert(waits@.len() == 11) by {
                    if waits@.len() < 11 {
                        assert(delay_at((waits@.len() - 1) as nat + 1) <= MAX_DELAY_SECS);
                    }
                }
                return waits;
            }
        }
    }
}

/// The delays of a retry chain double from two seconds; the failure numbered `n` from zero
/// is followed by another attempt exactly when `n < 10`, so an operation that keeps failing
/// is tried eleven times and abandoned after the eleventh failure, whose wait is 2048
/// seconds, since the next delay, 4096, would exceed 3600.
pub proof fn lemma_backoff_schedule()
    ensures
        delay_at(0) == 2,
        forall|n: nat| #[trigger] delay_at(n + 1) == 2 * delay_at(n),
        forall|n: nat| n < 10 ==> #[trigger] delay_at(n + 1) <= MAX_DELAY_SECS,
        forall|n: nat| #[trigger] delay_at(n + 1) <= MAX_DELAY_SECS <==> n < 10,
        delay_at(10) == 2048,
        delay_at(11) == 4096,
        delay_at(11) > MAX_DELAY_SECS,
{
    reveal_with_fuel(delay_at, 12);
    assert forall|n: nat| #[trigger] delay_at(n + 1) <= MAX_DELAY_SECS <==> n < 10 by {
        if n < 10 {
            lemma_delay_monotone(n + 1, 10);
        } else {
            lemma_delay_monotone(11, n + 1);
        }
    }
}

proof fn lemma_delay_monotone(m: nat, n: nat)
    requires
        m <= n,
    ensures
        delay_at(m) <= delay_at(n),
    decreases n - m,
{
    if m < n {
        lemma_delay_monotone(m, (n - 1) as nat);
    }
}

} // verus!
