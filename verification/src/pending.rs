//! The single slot that holds an update between a check and its install.

use vstd::prelude::*;

verus! {

/// Holds at most one update that a check found and no install has consumed.
///
/// `H` is the handle by which the update service knows the artifact. The slot
/// owns it and never looks into it.
#[derive(Debug)]
pub struct PendingUpdate<H> {
    slot: Option<H>,
}

impl<H> View for PendingUpdate<H> {
    type V = Option<H>;

    closed spec fn view(&self) -> Option<H> {
        self.slot
    }
}

impl<H> PendingUpdate<H> {
    /// The slot as it is at startup: empty.
    pub fn new() -> (slot: Self)
        ensures
            slot@ is None,
    {
        PendingUpdate { slot: None }
    }

    /// Whether an update is waiting.
    pub fn is_pending(&self) -> (pending: bool)
        ensures
            pending == (self@ is Some),
    {
        self.slot.is_some()
    }

    /// Stores `update`, dropping whatever the slot held.
    pub fn put(&mut self, update: H)
        ensures
            final(self)@ == Some(update),
    {
        self.slot = Some(update);
    }

    /// Removes and returns what the slot held, leaving it empty.
    pub fn take(&mut self) -> (taken: Option<H>)
        ensures
            taken == old(self)@,
            final(self)@ is None,
    {
        self.slot.take()
    }
}

} // verus!
