//! The readiness poller: checks against the server's endpoint are retried at
//! a fixed cadence until one succeeds, then one fixed grace sleep follows.
//!
//! The network check itself is the host's; the poller is handed each check's
//! outcome and answers with the next step to take.

use vstd::prelude::*;

verus! {

/// Seconds slept after each failed readiness check, before the next one.
pub const POLL_INTERVAL_SECS: u64 = 1;

/// Seconds slept once, after the first successful readiness check, before the
/// server is treated as ready.
pub const GRACE_SECS: u64 = 1;

/// What the host must do next after handing one check outcome to the poller.
#[derive(Clone, Copy, Debug, PartialEq, Eq, Structural)]
pub enum PollStep {
    /// The check failed: sleep `POLL_INTERVAL_SECS`, run the next check, and
    /// hand its outcome back.
    Retry,
    /// The check succeeded: sleep `GRACE_SECS` once, then treat the server as
    /// ready.
    Grace,
}

/// The poller's state: how many checks it has seen, and whether one succeeded.
pub struct Poller {
    /// Readiness checks whose outcome was handed to the poller so far.
    pub attempts: u64,
    /// Whether some check has succeeded.
    pub ready: bool,
}

impl Poller {
    /// A poller that has not yet seen any check outcome.
    pub fn new() -> (p: Poller)
        ensures
            p.attempts == 0,
            !p.ready,
    {
        Poller { attempts: 0, ready: false }
    }

    /// Hand the poller the outcome of one readiness check. A failure asks for
    /// one interval sleep and another check; the first success asks for the
    /// grace sleep and ends the run. There is no attempt limit: however many
    /// checks have failed, a failure only ever asks for a retry.
    pub fn on_check(&mut self, ok: bool) -> (step: PollStep)
        requires
            !old(self).ready,
            old(self).attempts < u64::MAX,
        ensures
            final(self).attempts == old(self).attempts + 1,
            final(self).ready == ok,
            step == (if ok {
                PollStep::Grace
            } else {
                PollStep::Retry
            }),
    {
        self.attempts = self.attempts + 1;
        self.ready = ok;
        if ok {
            PollStep::Grace
        } else {
            PollStep::Retry
        }
    }
}

/// Whether some check in `outcomes` succeeds.
pub open spec fn has_success(outcomes: Seq<bool>) -> bool {
    exists|i: int| 0 <= i < outcomes.len() && outcomes[i]
}

/// Whether the first `n` checks in `outcomes` all fail.
pub open spec fn prefix_all_failed(outcomes: Seq<bool>, n: int) -> bool {
    forall|i: int| 0 <= i < n ==> !outcomes[i]
}

/// Tally of one poller run over a sequence of check outcomes.
pub struct PollRun {
    /// Whether the run ended with a successful check.
    pub ready: bool,
    /// Readiness checks performed.
    pub checks: usize,
    /// Sleeps of `POLL_INTERVAL_SECS` performed: one after each failed check.
    pub interval_sleeps: usize,
    /// Sleeps of `GRACE_SECS` performed: one after the first success, none
    /// otherwise.
    pub grace_sleeps: usize,
}

/// Whether `r` is a correct account of a poller run over `outcomes`: checks
/// run in order until the first success, each failure is followed by exactly
/// one interval sleep, and exactly the first success is followed by the one
/// grace sleep.
pub open spec fn run_rel(outcomes: Seq<bool>, r: PollRun) -> bool {
    &&& (r.ready <==> has_success(outcomes))
    &&& r.ready ==> {
        &&& 0 < r.checks <= outcomes.len()
        &&& outcomes[r.checks - 1]
        &&& prefix_all_failed(outcomes, r.checks - 1)
    }
    &&& !r.ready ==> r.checks == outcomes.len()
    &&& r.interval_sleeps == r.checks - (if r.ready {
        1int
    } else {
        0int
    })
    &&& r.grace_sleeps == (if r.ready {
        1int
    } else {
        0int
    })
}

/// Run the poller over a recorded sequence of check outcomes, stopping at the
/// first success as the live loop does. A run over outcomes that never
/// succeed checks and sleeps once per outcome and reports no readiness — for
/// a sequence of any length, which is the live loop's unbounded retry.
pub fn run_poller(outcomes: &Vec<bool>) -> (r: PollRun)
    ensures
        run_rel(outcomes@, r),
{
    let mut poller = Poller::new();
    let mut idx: usize = 0;
    let mut interval_sleeps: usize = 0;
    while idx < outcomes.len()
        invariant
            idx <= outcomes@.len(),
            poller.attempts == idx,
            !poller.ready,
            prefix_all_failed(outcomes@, idx as int),
            interval_sleeps == idx,
        decreases outcomes@.len() - idx,
    {
        let step = poller.on_check(outcomes[idx]);
        match step {
            PollStep::Grace => {
                return PollRun {
                    ready: true,
                    checks: idx + 1,
                    interval_sleeps,
                    grace_sleeps: 1,
                };
            },
            PollStep::Retry => {
                interval_sleeps = interval_sleeps + 1;
            },
        }
        idx = idx + 1;
    }
    PollRun { ready: false, checks: idx, interval_sleeps, grace_sleeps: 0 }
}

/// A poller facing checks that all fail never reports readiness: it performs
/// one check and one interval sleep per outcome and no grace sleep, however
/// long the sequence — a never-succeeding endpoint keeps it retrying at the
/// fixed cadence with no upper bound.
pub proof fn lemma_never_ready(outcomes: Seq<bool>, r: PollRun)
    requires
        forall|i: int| 0 <= i < outcomes.len() ==> !outcomes[i],
        run_rel(outcomes, r),
    ensures
        !r.ready,
        r.checks == outcomes.len(),
        r.interval_sleeps == outcomes.len(),
        r.grace_sleeps == 0,
{
}

/// A run whose first check succeeds performs exactly one check, no interval
/// sleep, and the one grace sleep: the poller returns after one check plus
/// the grace delay, never before.
pub proof fn lemma_immediate_success(outcomes: Seq<bool>, r: PollRun)
    requires
        outcomes.len() > 0,
        outcomes[0],
        run_rel(outcomes, r),
    ensures
        r.ready,
        r.checks == 1,
        r.interval_sleeps == 0,
        r.grace_sleeps == 1,
{
    assert(has_success(outcomes));
    if r.checks != 1 {
        assert(!outcomes[0]);
    }
}

} // verus!
