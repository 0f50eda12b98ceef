//! Bounded admission of concurrent transfers.
//!
//! A batch may run at most `limit` transfers at once. A task acquires a slot
//! before it starts its verify/download work and releases it exactly once
//! when it reaches its terminal state. The counter of free slots plus the
//! number of running tasks always equals the configured limit.

use vstd::prelude::*;

verus! {

/// A bounded counter of free concurrency slots.
///
/// `counter` is the number of slots still free, `running` the number of
/// acquisitions not yet released. The admission invariant
/// `counter + running == limit` holds after construction and is preserved
/// by `try_acquire` and `release`.
pub struct AdmissionSlots {
    counter: usize,
    running: usize,
    limit: usize,
}

impl AdmissionSlots {
    /// Number of slots still free.
    pub closed spec fn spec_counter(&self) -> nat {
        self.counter as nat
    }

    /// Number of acquisitions not yet released.
    pub closed spec fn spec_running(&self) -> nat {
        self.running as nat
    }

    /// The configured concurrency limit.
    pub closed spec fn spec_limit(&self) -> nat {
        self.limit as nat
    }

    /// The admission invariant: free slots plus running tasks equal the limit.
    pub closed spec fn wf(&self) -> bool {
        self.counter + self.running == self.limit
    }

    /// Create a controller with `limit` free slots and nothing running.
    pub fn new(limit: usize) -> (s: Self)
        ensures
            s.wf(),
            s.spec_limit() == limit,
            s.spec_counter() == limit,
            s.spec_running() == 0,
    {
        AdmissionSlots { counter: limit, running: 0, limit }
    }

    /// Number of slots currently free.
    pub fn available(&self) -> (n: usize)
        ensures
            n == self.spec_counter(),
    {
        self.counter
    }

    /// Number of acquisitions not yet released.
    pub fn running(&self) -> (n: usize)
        ensures
            n == self.spec_running(),
    {
        self.running
    }

    /// The configured limit.
    pub fn limit(&self) -> (n: usize)
        ensures
            n == self.spec_limit(),
    {
        self.limit
    }

    /// Atomic check-and-decrement: claim a slot if one is free.
    ///
    /// Returns `true` and moves one slot from free to running when the
    /// counter is positive; leaves the state untouched and returns `false`
    /// when no slot is free. The counter never goes below zero.
    pub fn try_acquire(&mut self) -> (ok: bool)
        requires
            old(self).wf(),
        ensures
            final(self).wf(),
            final(self).spec_limit() == old(self).spec_limit(),
            ok == (old(self).spec_counter() > 0),
            ok ==> final(self).spec_counter() == old(self).spec_counter() - 1
                && final(self).spec_running() == old(self).spec_running() + 1,
            !ok ==> *final(self) == *old(self),
    {
        if self.counter > 0 {
            self.counter = self.counter - 1;
            self.running = self.running + 1;
            true
        } else {
            false
        }
    }

    /// Return a slot claimed by a prior `try_acquire`.
    ///
    /// Must be called exactly once per successful acquisition; the
    /// precondition rules out a release without a matching acquire, so the
    /// counter can never exceed the limit.
    pub fn release(&mut self)
        requires
            old(self).wf(),
            old(self).spec_running() > 0,
        ensures
            final(self).wf(),
            final(self).spec_limit() == old(self).spec_limit(),
            final(self).spec_counter() == old(self).spec_counter() + 1,
            final(self).spec_running() == old(self).spec_running() - 1,
    {
        self.counter = self.counter + 1;
        self.running = self.running - 1;
    }
}

/// The admission counter invariant, spelled out: the number of free slots
/// plus the number of running tasks equals the configured limit at every
/// observation point at which `wf` holds — that is, after construction and
/// after every `try_acquire` and `release`.
pub proof fn lemma_admission_invariant(s: &AdmissionSlots)
    requires
        s.wf(),
    ensures
        s.spec_counter() + s.spec_running() == s.spec_limit(),
{
}

/// The admission counter never lets more than `limit` tasks run at once:
/// under the admission invariant, the number of running tasks is bounded
/// by the configured limit.
pub proof fn lemma_running_bounded(s: &AdmissionSlots)
    requires
        s.wf(),
    ensures
        s.spec_running() <= s.spec_limit(),
        s.spec_counter() <= s.spec_limit(),
{
}

} // verus!
