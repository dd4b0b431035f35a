//! Per-instance consumer accounting: a reference count of live handles and
//! the owned handle token itself.

use vstd::prelude::*;
use crate::instance::Instance;

verus! {

/// Live-consumer counter of one flexcomm instance. One such cell exists per
/// instance identity for the whole life of the controller; its count starts
/// at zero and moves only by handle creation, cloning and release.
#[derive(Copy, Clone, Debug)]
pub struct State {
    refcount: u8,
}

impl State {
    /// The number of live handles this cell currently accounts for.
    pub closed spec fn spec_count(self) -> u8 {
        self.refcount
    }

    /// Builds a fresh cell with no live consumers.
    pub fn new() -> (s: State)
        ensures
            s.spec_count() == 0,
    {
        State { refcount: 0 }
    }

    /// Reads the current count.
    pub fn count(&self) -> (n: u8)
        ensures
            n == self.spec_count(),
    {
        self.refcount
    }

    /// Accounts for one more live handle.
    pub(crate) fn increment(&mut self)
        requires
            old(self).spec_count() < 255,
        ensures
            final(self).spec_count() == old(self).spec_count() + 1,
    {
        self.refcount = self.refcount + 1;
    }

    /// Accounts for one released handle; reports the count the cell held
    /// before the decrement, so the caller can tell the last release apart.
    pub(crate) fn decrement(&mut self) -> (was: u8)
        requires
            old(self).spec_count() >= 1,
        ensures
            was == old(self).spec_count(),
            final(self).spec_count() == old(self).spec_count() - 1,
    {
        let was = self.refcount;
        self.refcount = self.refcount - 1;
        was
    }
}

/// An owned token representing one active consumer of an instance's enabled
/// clock.
///
/// Handles are minted only by enabling an instance or by cloning an existing
/// handle, each of which raises the instance's reference count by one, and
/// every handle is spent exactly once by releasing it. Releasing the last
/// live handle is the sole trigger for disabling the instance's clocks.
#[must_use]
pub struct FlexcommRef {
    instance: Instance,
}

impl FlexcommRef {
    /// The instance identity this handle is bound to.
    pub closed spec fn spec_instance(self) -> Instance {
        self.instance
    }

    /// Mints the first handle of an enable cycle: requires that no consumer
    /// is live, and records exactly one.
    pub fn new(state: &mut State, instance: Instance) -> (handle: FlexcommRef)
        requires
            old(state).spec_count() == 0,
        ensures
            final(state).spec_count() == 1,
            handle.spec_instance() == instance,
    {
        state.increment();
        FlexcommRef { instance }
    }

    /// Reads the instance identity this handle is bound to.
    pub fn instance(&self) -> (i: Instance)
        ensures
            i == self.spec_instance(),
    {
        self.instance
    }

    /// Mints a sibling handle bound to the same instance; the caller accounts
    /// for it on the instance's counter.
    pub(crate) fn sibling(&self) -> (handle: FlexcommRef)
        ensures
            handle.spec_instance() == self.spec_instance(),
    {
        FlexcommRef { instance: self.instance }
    }
}

} // verus!
