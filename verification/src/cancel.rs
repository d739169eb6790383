//! The cancellation coordinator: a single fire-once signal fanned out to
//! both tasks so they leave their loops and run their shutdown sequences.
use vstd::prelude::*;

verus! {

/// The fire-once shutdown signal, as the coordinator tracks it.
///
/// The host pairs this value with its broadcast channel: both tasks must
/// subscribe before the interrupt handler is installed — a subscriber added
/// after the signal fired would never observe it — and the handler calls
/// [`CancellationSignal::fire`] on each interrupt.  Only a first firing is
/// broadcast; once sent, a repeat is a no-op.
pub struct CancellationSignal {
    fired: bool,
}

impl CancellationSignal {
    /// Whether the signal has fired.
    pub closed spec fn spec_fired(&self) -> bool {
        self.fired
    }

    /// A fresh, unfired signal, created before either task starts.
    pub fn new() -> (r: Self)
        ensures
            !r.spec_fired(),
    {
        CancellationSignal { fired: false }
    }

    /// Fire the signal.  Afterwards the signal has fired, whatever it was
    /// before; the result says whether this call was the first, and only a
    /// first firing is worth broadcasting.
    pub fn fire(&mut self) -> (first: bool)
        ensures
            final(self).spec_fired(),
            first == !old(self).spec_fired(),
    {
        let first = !self.fired;
        self.fired = true;
        first
    }

    /// Whether the signal has fired, read at run time.
    pub fn is_fired(&self) -> (b: bool)
        ensures
            b == self.spec_fired(),
    {
        self.fired
    }
}

} // verus!
