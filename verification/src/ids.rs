//! Allocation of connection identifiers.
//!
//! Every accepted connection gets a fresh identifier from a process-wide
//! monotonic counter. Identifiers are never reused while the hub runs, so
//! one identifier names one connection for the hub's whole lifetime.

use vstd::prelude::*;

verus! {

/// A monotonic counter handing out connection identifiers, each one exactly
/// once. Exhaustion of the 64-bit space is fatal for accepting new
/// connections only; callers must check [`Incrementor::can_increment`]
/// before asking for another identifier.
pub struct Incrementor {
    i: u64,
}

impl Incrementor {
    /// The next identifier this counter will hand out.
    pub closed spec fn next_id(&self) -> u64 {
        self.i
    }

    /// A fresh counter; the first identifier handed out is 0.
    pub fn new() -> (r: Self)
        ensures
            r.next_id() == 0,
    {
        Incrementor { i: 0 }
    }

    /// Whether another identifier can still be handed out.
    pub fn can_increment(&self) -> (r: bool)
        ensures
            r == (self.next_id() < u64::MAX),
    {
        self.i < u64::MAX
    }

    /// Hands out the next identifier and advances the counter, so the same
    /// identifier is never handed out twice.
    pub fn increment(&mut self) -> (id: u64)
        requires
            old(self).next_id() < u64::MAX,
        ensures
            id == old(self).next_id(),
            final(self).next_id() == old(self).next_id() + 1,
    {
        let id = self.i;
        self.i = self.i + 1;
        id
    }
}

} // verus!
