//! The execution guard: an exclusive, try-lockable token that serializes all
//! entries into the engine across call sources.
//!
//! The real-time tick path must never block, so it only ever performs a single
//! bounded `try_acquire`; on contention it degrades to silence.  A poisoned
//! guard (a prior holder failed catastrophically) is the one fatal runtime
//! condition: it is reported, never silently ignored.
//!
//! The guard is modelled as explicit state with exact contracts; a host that
//! drives the library from several threads wraps the whole engine in its own
//! mutual-exclusion primitive and mirrors that primitive's outcome onto this
//! guard, so the no-block policy itself stays verified.

use vstd::prelude::*;

verus! {

/// The three states an execution guard can be in.
#[derive(Clone, Copy, PartialEq, Eq, Structural, Debug)]
pub enum GuardState {
    /// Nobody holds the guard; an entry may acquire it.
    Open,
    /// Some entry currently holds the guard.
    Held,
    /// A prior holder failed catastrophically; every later entry must treat
    /// the engine as unusable.
    Poisoned,
}

/// The outcome of one bounded, non-blocking acquisition attempt.
#[derive(Clone, Copy, PartialEq, Eq, Structural, Debug)]
pub enum TryAcquire {
    /// The guard was open and is now held by the caller.
    Acquired,
    /// The guard is held elsewhere; the caller must not wait.
    Contended,
    /// The guard is poisoned; the caller must escalate.
    Poisoned,
}

/// Exclusive, try-lockable token serializing engine entries.
pub struct ExecutionGuard {
    state: GuardState,
}

impl ExecutionGuard {
    /// The guard's current state, for contracts.
    pub closed spec fn spec_state(&self) -> GuardState {
        self.state
    }

    /// A fresh guard starts open.
    pub fn new() -> (g: ExecutionGuard)
        ensures
            g.spec_state() == GuardState::Open,
    {
        ExecutionGuard { state: GuardState::Open }
    }

    /// One bounded acquisition attempt; never waits.  Exactly one outcome per
    /// prior state: open guards are taken, held guards report contention
    /// without any change, poisoned guards report poison without any change.
    pub fn try_acquire(&mut self) -> (r: TryAcquire)
        ensures
            old(self).spec_state() == GuardState::Open ==> r == TryAcquire::Acquired
                && final(self).spec_state() == GuardState::Held,
            old(self).spec_state() == GuardState::Held ==> r == TryAcquire::Contended
                && *final(self) == *old(self),
            old(self).spec_state() == GuardState::Poisoned ==> r == TryAcquire::Poisoned
                && *final(self) == *old(self),
    {
        match self.state {
            GuardState::Open => {
                self.state = GuardState::Held;
                TryAcquire::Acquired
            }
            GuardState::Held => TryAcquire::Contended,
            GuardState::Poisoned => TryAcquire::Poisoned,
        }
    }

    /// Releases a held guard.
    pub fn release(&mut self)
        requires
            old(self).spec_state() == GuardState::Held,
        ensures
            final(self).spec_state() == GuardState::Open,
    {
        self.state = GuardState::Open;
    }

    /// Marks the guard poisoned.  The host calls this when a holder failed
    /// catastrophically (for example, a panic escaped an engine entry).
    /// There is no way back: recovery is process-level.
    pub fn poison(&mut self)
        ensures
            final(self).spec_state() == GuardState::Poisoned,
    {
        self.state = GuardState::Poisoned;
    }

    /// Whether the guard is currently poisoned.
    pub fn is_poisoned(&self) -> (r: bool)
        ensures
            r == (self.spec_state() == GuardState::Poisoned),
    {
        self.state == GuardState::Poisoned
    }

    /// Whether the guard is currently held.
    pub fn is_held(&self) -> (r: bool)
        ensures
            r == (self.spec_state() == GuardState::Held),
    {
        self.state == GuardState::Held
    }
}

} // verus!
