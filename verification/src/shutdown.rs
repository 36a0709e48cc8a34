//! The process-wide shutdown signal.
//!
//! A single signal is shared with every actor. It has exactly two states:
//! *armed* (the initial state) and *cancelled* (terminal). Any holder may
//! cancel it; cancelling is one-way and idempotent.

use vstd::prelude::*;

verus! {

/// The shared cancellation signal. Once cancelled it stays cancelled.
pub struct ShutdownSignal {
    cancelled: bool,
}

impl ShutdownSignal {
    /// True once some holder has cancelled the signal.
    pub closed spec fn spec_is_cancelled(&self) -> bool {
        self.cancelled
    }

    /// A fresh signal is armed, not cancelled.
    pub fn new() -> (s: Self)
        ensures
            !s.spec_is_cancelled(),
    {
        ShutdownSignal { cancelled: false }
    }

    /// Requests shutdown. One-way: after this call the signal is cancelled,
    /// and a cancellation of an already-cancelled signal changes nothing.
    pub fn cancel(&mut self)
        ensures
            final(self).spec_is_cancelled(),
            old(self).spec_is_cancelled() ==> *final(self) == *old(self),
    {
        self.cancelled = true;
    }

    /// Observes the signal without changing it.
    pub fn is_cancelled(&self) -> (b: bool)
        ensures
            b == self.spec_is_cancelled(),
    {
        self.cancelled
    }
}

/// Cancellation is idempotent: the cancelled state is unique, so many
/// cancellations, from however many holders, leave the signal exactly as a
/// single one does, and every holder observes one logical cancellation.
pub proof fn lemma_cancel_idempotent(first: ShutdownSignal, second: ShutdownSignal)
    requires
        first.spec_is_cancelled(),
        second.spec_is_cancelled(),
    ensures
        first == second,
{
}

} // verus!
