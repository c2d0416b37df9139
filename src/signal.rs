use vstd::prelude::*;

verus! {

/// The flag the coordinator sleeps on. A worker raises it when its batch is
/// complete; the coordinator takes it on each wake and then checks both
/// batches.
pub struct WakeSignal {
    pending: bool,
}

impl View for WakeSignal {
    type V = bool;

    closed spec fn view(&self) -> bool {
        self.pending
    }
}

impl WakeSignal {
    /// A signal with no wake pending.
    pub fn new() -> (r: Self)
        ensures
            !r@,
    {
        WakeSignal { pending: false }
    }

    /// Asks the coordinator to wake.
    pub fn raise(&mut self)
        ensures
            final(self)@,
    {
        self.pending = true;
    }

    /// Consumes the pending wake, if any, and reports whether there was one.
    pub fn take(&mut self) -> (r: bool)
        ensures
            r == old(self)@,
            !final(self)@,
    {
        let r = self.pending;
        self.pending = false;
        r
    }

    /// Whether a wake is pending.
    pub fn is_raised(&self) -> (r: bool)
        ensures
            r == self@,
    {
        self.pending
    }
}

} // verus!
