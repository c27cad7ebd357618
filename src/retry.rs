use vstd::prelude::*;

verus! {

/// Attempts for one event write.
pub const MAX_RETRIES: u32 = 3;

/// Pause between two attempts of an event write.
pub const RETRY_DELAY_MS: u64 = 10;

/// Attempts for creating the virtual device.
pub const MAX_DEVICE_INIT_RETRIES: u32 = 3;

/// Pause between two attempts of creating the virtual device.
pub const DEVICE_INIT_RETRY_DELAY_MS: u64 = 100;

/// What the caller does after an attempt.
#[derive(Clone, Copy, Debug, PartialEq, Eq, Structural)]
pub enum RetryStep {
    /// The attempt succeeded: hand its value back.
    Done,
    /// The attempt failed and another is allowed: report `failed_attempt` (counted from 1)
    /// to the observer, sleep the delay, and try again.
    Again { failed_attempt: u32 },
    /// The last allowed attempt failed: hand its error back, with no report and no sleep.
    Exhausted,
}

/// Bounded retry: counts the attempts made and decides what follows each one.
#[derive(Clone, Copy, Debug)]
pub struct Retry {
    pub max_attempts: u32,
    pub delay_ms: u64,
    pub attempts: u32,
}

pub open spec fn retry_step(attempts_before: nat, max_attempts: nat, succeeded: bool) -> RetryStep {
    if succeeded {
        RetryStep::Done
    } else if attempts_before + 1 < max_attempts {
        RetryStep::Again { failed_attempt: (attempts_before + 1) as u32 }
    } else {
        RetryStep::Exhausted
    }
}

/// The steps taken when the attempts from number `start` on have the given outcomes, up to
/// and including the first step that is not `Again`.
pub open spec fn retry_steps(start: nat, max_attempts: nat, outcomes: Seq<bool>) -> Seq<RetryStep>
    decreases outcomes.len(),
{
    if outcomes.len() == 0 {
        Seq::empty()
    } else {
        let s = retry_step(start, max_attempts, outcomes[0]);
        if s is Again {
            seq![s] + retry_steps(start + 1, max_attempts, outcomes.drop_first())
        } else {
            seq![s]
        }
    }
}

/// The number of observer reports, and of sleeps, among the steps.
pub open spec fn count_again(steps: Seq<RetryStep>) -> nat
    decreases steps.len(),
{
    if steps.len() == 0 {
        0
    } else {
        (if steps[0] is Again { 1nat } else { 0nat }) + count_again(steps.drop_first())
    }
}

impl Retry {
    pub open spec fn wf(&self) -> bool {
        1 <= self.max_attempts && self.attempts <= self.max_attempts
    }

    /// A retry budget of `max_attempts` attempts with `delay_ms` between failed ones.
    pub fn new(max_attempts: u32, delay_ms: u64) -> (r: Retry)
        requires
            max_attempts >= 1,
        ensures
            r.wf(),
            r.max_attempts == max_attempts,
            r.delay_ms == delay_ms,
            r.attempts == 0,
    {
        Retry { max_attempts, delay_ms, attempts: 0 }
    }

    /// Records the outcome of one more attempt and says what to do next.
    pub fn record(&mut self, succeeded: bool) -> (s: RetryStep)
        requires
            old(self).wf(),
            old(self).attempts < old(self).max_attempts,
        ensures
            final(self).wf(),
            final(self).max_attempts == old(self).max_attempts,
            final(self).delay_ms == old(self).delay_ms,
            final(self).attempts == old(self).attempts + 1,
            s == retry_step(old(self).attempts as nat, old(self).max_attempts as nat, succeeded),
            s is Again ==> final(self).attempts < final(self).max_attempts,
    {
        self.attempts = self.attempts + 1;
        if succeeded {
            RetryStep::Done
        } else if self.attempts < self.max_attempts {
            RetryStep::Again { failed_attempt: self.attempts }
        } else {
            RetryStep::Exhausted
        }
    }
}

/// An operation that succeeds at its first attempt ends the retry at once: no sleep and no
/// observer report.
pub proof fn lemma_first_success_no_retry(max_attempts: nat, outcomes: Seq<bool>)
    requires
        max_attempts >= 1,
        outcomes.len() >= 1,
        outcomes[0],
    ensures
        retry_steps(0, max_attempts, outcomes) == seq![RetryStep::Done],
        count_again(retry_steps(0, max_attempts, outcomes)) == 0,
{
    let s = seq![RetryStep::Done];
    assert(count_again(s.drop_first()) == 0);
}

/// With `n` attempts allowed, an operation that fails `n - 1` times and then succeeds
/// returns its value, and the observer hears of failed attempts `1` to `n - 1`, once each.
pub proof fn lemma_success_at_last_attempt(n: nat, outcomes: Seq<bool>)
    requires
        1 <= n <= u32::MAX,
        outcomes.len() == n,
        forall|i: int| 0 <= i < n - 1 ==> !outcomes[i],
        outcomes[n - 1],
    ensures
        retry_steps(0, n, outcomes).len() == n,
        retry_steps(0, n, outcomes).last() == RetryStep::Done,
        forall|i: int|
            0 <= i < n - 1 ==> retry_steps(0, n, outcomes)[i] == (RetryStep::Again {
                failed_attempt: (i + 1) as u32,
            }),
        count_again(retry_steps(0, n, outcomes)) == n - 1,
{
    lemma_fail_then_succeed(0, n, outcomes);
}

proof fn lemma_fail_then_succeed(start: nat, n: nat, outcomes: Seq<bool>)
    requires
        n <= u32::MAX,
        start + outcomes.len() == n,
        outcomes.len() >= 1,
        forall|i: int| 0 <= i < outcomes.len() - 1 ==> !outcomes[i],
        outcomes.last(),
    ensures
        retry_steps(start, n, outcomes).len() == outcomes.len(),
        retry_steps(start, n, outcomes).last() == RetryStep::Done,
        forall|i: int|
            0 <= i < outcomes.len() - 1 ==> retry_steps(start, n, outcomes)[i] == (RetryStep::Again {
                failed_attempt: (start + i + 1) as u32,
            }),
        count_again(retry_steps(start, n, outcomes)) == outcomes.len() - 1,
    decreases outcomes.len(),
{
    let steps = retry_steps(start, n, outcomes);
    if outcomes.len() == 1 {
        assert(count_again(steps.drop_first()) == 0);
    } else {
        let rest = outcomes.drop_first();
        lemma_fail_then_succeed(start + 1, n, rest);
        let tail = retry_steps(start + 1, n, rest);
        assert(steps == seq![RetryStep::Again { failed_attempt: (start + 1) as u32 }] + tail);
        assert(steps.drop_first() =~= tail);
        assert forall|i: int| 0 <= i < outcomes.len() - 1 implies steps[i] == (RetryStep::Again {
            failed_attempt: (start + i + 1) as u32,
        }) by {
            if i > 0 {
                assert(steps[i] == tail[i - 1]);
                assert(!rest[i - 1]);
            }
        }
    }
}

/// When every allowed attempt fails, the retry ends exhausted after `max_attempts` attempts,
/// with one observer report for each attempt but the last.
pub proof fn lemma_all_attempts_fail(max_attempts: nat, outcomes: Seq<bool>)
    requires
        1 <= max_attempts <= u32::MAX,
        outcomes.len() == max_attempts,
        forall|i: int| 0 <= i < max_attempts ==> !outcomes[i],
    ensures
        retry_steps(0, max_attempts, outcomes).len() == max_attempts,
        retry_steps(0, max_attempts, outcomes).last() == RetryStep::Exhausted,
        count_again(retry_steps(0, max_attempts, outcomes)) == max_attempts - 1,
{
    lemma_fail_to_end(0, max_attempts, outcomes);
}

proof fn lemma_fail_to_end(start: nat, n: nat, outcomes: Seq<bool>)
    requires
        n <= u32::MAX,
        start + outcomes.len() == n,
        outcomes.len() >= 1,
        forall|i: int| 0 <= i < outcomes.len() ==> !outcomes[i],
    ensures
        retry_steps(start, n, outcomes).len() == outcomes.len(),
        retry_steps(start, n, outcomes).last() == RetryStep::Exhausted,
        count_again(retry_steps(start, n, outcomes)) == outcomes.len() - 1,
    decreases outcomes.len(),
{
    let steps = retry_steps(start, n, outcomes);
    if outcomes.len() == 1 {
        assert(count_again(steps.drop_first()) == 0);
    } else {
        let rest = outcomes.drop_first();
        lemma_fail_to_end(start + 1, n, rest);
        let tail = retry_steps(start + 1, n, rest);
        assert(steps.drop_first() =~= tail);
    }
}

} // verus!
