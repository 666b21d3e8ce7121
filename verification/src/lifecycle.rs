//! The background startup task's phases: the child process is spawned and
//! recorded, then readiness is awaited, then the main surface is revealed —
//! in this order, and the reveal happens exactly once.

use vstd::prelude::*;

verus! {

/// The phase the background startup task is in.
#[derive(Clone, Copy, Debug, PartialEq, Eq, Structural)]
pub enum Phase {
    /// The child process has not been recorded yet.
    Starting,
    /// The child is recorded; readiness checks are running.
    Polling,
    /// A readiness check succeeded and the grace period has passed.
    Ready,
    /// The main surface has been shown.
    Revealed,
}

/// Tracks the background startup task through its phases.
pub struct Startup {
    /// The current phase.
    pub phase: Phase,
    /// How often the main surface has been revealed.
    pub reveals: u64,
}

/// The startup invariant: the main surface has been revealed exactly once in
/// the final phase and never before it.
pub open spec fn startup_wf(s: Startup) -> bool {
    s.reveals == (if s.phase is Revealed {
        1int
    } else {
        0int
    })
}

impl Startup {
    /// A startup task that has not recorded the child yet.
    pub fn new() -> (s: Startup)
        ensures
            s.phase == Phase::Starting,
            s.reveals == 0,
            startup_wf(s),
    {
        Startup { phase: Phase::Starting, reveals: 0 }
    }

    /// The child process was spawned and its handle recorded: polling begins.
    pub fn child_recorded(&mut self)
        requires
            old(self).phase == Phase::Starting,
            startup_wf(*old(self)),
        ensures
            final(self).phase == Phase::Polling,
            final(self).reveals == old(self).reveals,
            startup_wf(*final(self)),
    {
        self.phase = Phase::Polling;
    }

    /// A readiness check succeeded and the grace period has passed.
    pub fn readiness_confirmed(&mut self)
        requires
            old(self).phase == Phase::Polling,
            startup_wf(*old(self)),
        ensures
            final(self).phase == Phase::Ready,
            final(self).reveals == old(self).reveals,
            startup_wf(*final(self)),
    {
        self.phase = Phase::Ready;
    }

    /// Reveal the main surface. Only the ready phase allows it, and it moves
    /// to the final phase, so it can never run a second time.
    pub fn reveal_main(&mut self)
        requires
            old(self).phase == Phase::Ready,
            startup_wf(*old(self)),
        ensures
            final(self).phase == Phase::Revealed,
            final(self).reveals == old(self).reveals + 1,
            final(self).reveals == 1,
            startup_wf(*final(self)),
    {
        self.phase = Phase::Revealed;
        self.reveals = self.reveals + 1;
    }
}

} // verus!
