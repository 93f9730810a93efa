//! Accounting for native resources: the ledger that records every handle
//! creation and release, and the explicit policy for a release that fails.

use vstd::prelude::*;

verus! {

/// What a destructor does when the native free call for its handle fails:
/// suppress the failure and accept the leaked native resource, or abort the
/// program. The choice is explicit per deployment, never a hidden default.
#[derive(Clone, Copy, Debug, PartialEq, Eq, Structural)]
pub enum FreePolicy {
    /// Suppress the failure; the native resource may leak.
    Suppress,
    /// Abort the program on the spot.
    Strict,
}

/// The outcome a destructor carries out for a failed native free call.
#[derive(Clone, Copy, Debug, PartialEq, Eq, Structural)]
pub enum FreeOutcome {
    /// Go on; the handle is abandoned to the native side.
    Suppress,
    /// Terminate the program abruptly.
    Panic,
}

impl FreePolicy {
    /// Decide what a destructor does when its native free call fails: the
    /// strict policy aborts, the suppressing policy goes on, and nothing
    /// else decides.
    pub fn on_free_failure(&self) -> (r: FreeOutcome)
        ensures
            r == FreeOutcome::Panic <==> *self == FreePolicy::Strict,
    {
        match self {
            FreePolicy::Suppress => FreeOutcome::Suppress,
            FreePolicy::Strict => FreeOutcome::Panic,
        }
    }
}

/// Counts of native handles handed out and released. Each wrapper object
/// records its construction once and its destruction once; the ledger then
/// shows that no handle is ever released twice and whether every handle has
/// been released.
pub struct HandleLedger {
    /// Native handles handed out by constructors so far.
    pub created: u64,
    /// Native handles released by destructors so far.
    pub released: u64,
}

impl HandleLedger {
    /// No handle is released before it was created, and none twice.
    pub open spec fn wf(self) -> bool {
        self.released <= self.created
    }

    /// Every created handle has been released: exactly one free call per
    /// handle, no double free and no leak.
    pub open spec fn balanced(self) -> bool {
        self.released == self.created
    }

    /// A ledger with nothing created and nothing released.
    pub fn new() -> (l: HandleLedger)
        ensures
            l.created == 0,
            l.released == 0,
            l.wf(),
            l.balanced(),
    {
        HandleLedger { created: 0, released: 0 }
    }

    /// Record one native constructor call that handed out a handle.
    pub fn record_create(&mut self)
        requires
            old(self).created < u64::MAX,
        ensures
            final(self).created == old(self).created + 1,
            final(self).released == old(self).released,
            old(self).wf() ==> final(self).wf(),
    {
        self.created = self.created + 1;
    }

    /// Record one native free call; some created handle must still be live,
    /// so no handle can ever be released twice.
    pub fn record_release(&mut self)
        requires
            old(self).released < old(self).created,
        ensures
            final(self).released == old(self).released + 1,
            final(self).created == old(self).created,
            final(self).wf(),
    {
        self.released = self.released + 1;
    }
}

/// Law: releases can never outnumber creations on a well-formed ledger, and
/// as soon as their counts agree, every handle was freed exactly once: no
/// double free and no leak.
pub proof fn lemma_each_handle_freed_exactly_once(l: HandleLedger)
    requires
        l.wf(),
    ensures
        l.released <= l.created,
        l.released == l.created ==> l.balanced(),
{
}

} // verus!
