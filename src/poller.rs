//! The readiness poller: a bounded-retry wait for an outside condition
//! (the host answering again after a reboot, a service's control API
//! answering). The host runs the probe and sleeps the fixed interval; the
//! poller decides whether to go on.

use vstd::prelude::*;

verus! {

/// What to do after a probe.
#[derive(Clone, Copy, Debug, PartialEq, Eq, Structural)]
pub enum PollOutcome {
    /// The condition holds.
    Ready,
    /// Sleep the interval, then probe again.
    Retry,
    /// The attempt ceiling is reached: a timeout, distinguishable from a failure.
    TimedOut,
}

/// A bounded wait: at most `max_attempts` probes.
#[derive(Clone, Copy, Debug, PartialEq, Eq, Structural)]
pub struct Poller {
    pub attempts: u32,
    pub max_attempts: u32,
    pub interval_secs: u64,
}

/// The decision after one more probe, given the attempts made before it.
pub open spec fn poll_outcome(attempts: u32, max_attempts: u32, ok: bool) -> PollOutcome {
    if ok {
        PollOutcome::Ready
    } else if attempts + 1 < max_attempts {
        PollOutcome::Retry
    } else {
        PollOutcome::TimedOut
    }
}

/// Feeds probe results to a poller until it stops: the outcome and the
/// number of probes it used.
pub open spec fn poll_run(attempts: u32, max_attempts: u32, results: Seq<bool>) -> (PollOutcome, nat)
    decreases results.len(),
{
    if results.len() == 0 {
        (PollOutcome::Retry, attempts as nat)
    } else {
        match poll_outcome(attempts, max_attempts, results[0]) {
            PollOutcome::Retry => poll_run((attempts + 1) as u32, max_attempts, results.drop_first()),
            o => (o, (attempts + 1) as nat),
        }
    }
}

impl Poller {
    /// A wait of at most `max_attempts` probes, `interval_secs` apart.
    pub fn new(max_attempts: u32, interval_secs: u64) -> (r: Poller)
        requires
            max_attempts > 0,
        ensures
            r.attempts == 0,
            r.max_attempts == max_attempts,
            r.interval_secs == interval_secs,
    {
        Poller { attempts: 0, max_attempts, interval_secs }
    }

    /// Records one probe result and decides what follows.
    pub fn record(&mut self, ok: bool) -> (r: PollOutcome)
        requires
            old(self).attempts < old(self).max_attempts,
        ensures
            r == poll_outcome(old(self).attempts, old(self).max_attempts, ok),
            final(self).attempts == old(self).attempts + 1,
            final(self).max_attempts == old(self).max_attempts,
            final(self).interval_secs == old(self).interval_secs,
            r is Retry ==> final(self).attempts < final(self).max_attempts,
    {
        self.attempts = self.attempts + 1;
        if ok {
            PollOutcome::Ready
        } else if self.attempts < self.max_attempts {
            PollOutcome::Retry
        } else {
            PollOutcome::TimedOut
        }
    }
}

/// Reconnect after a bounded outage: when the probe fails `k` times and then
/// succeeds, with `k` below the ceiling, the wait ends `Ready` after `k + 1`
/// probes, within the ceiling.
pub proof fn lemma_ready_after_outage(max_attempts: u32, k: nat, rest: Seq<bool>)
    requires
        k < max_attempts,
    ensures
        ({
            let results = Seq::new(k, |i: int| false) + seq![true] + rest;
            poll_run(0, max_attempts, results) == (PollOutcome::Ready, k + 1)
        }),
{
    lemma_outage_from(0, max_attempts, k, rest);
    assert(Seq::new(k, |i: int| false) + seq![true] + rest =~= Seq::new(
        (k - 0) as nat,
        |i: int| false,
    ) + seq![true] + rest);
}

proof fn lemma_outage_from(a: u32, max_attempts: u32, k: nat, rest: Seq<bool>)
    requires
        a <= k < max_attempts,
    ensures
        poll_run(a, max_attempts, Seq::new((k - a) as nat, |i: int| false) + seq![true] + rest) == (
            PollOutcome::Ready,
            k + 1,
        ),
    decreases k - a,
{
    let results = Seq::new((k - a) as nat, |i: int| false) + seq![true] + rest;
    if a == k {
        assert(results[0] == true);
    } else {
        assert(results[0] == false);
        assert(results.drop_first() =~= Seq::new((k - (a + 1)) as nat, |i: int| false) + seq![true]
            + rest);
        lemma_outage_from((a + 1) as u32, max_attempts, k, rest);
    }
}

/// The wait never uses more probes than its ceiling.
pub proof fn lemma_poll_within_ceiling(attempts: u32, max_attempts: u32, results: Seq<bool>)
    requires
        attempts < max_attempts,
    ensures
        poll_run(attempts, max_attempts, results).1 <= max_attempts,
    decreases results.len(),
{
    if results.len() > 0 && poll_outcome(attempts, max_attempts, results[0]) is Retry {
        lemma_poll_within_ceiling((attempts + 1) as u32, max_attempts, results.drop_first());
    }
}

} // verus!
