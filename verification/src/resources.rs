use vstd::prelude::*;

verus! {

/// A count of the font resources currently alive.
///
/// The paint code acquires one font per probed candidate size and one for
/// the final draw, and releases each before moving on; the ledger makes
/// that pairing checkable, so repeated paints cannot leak.
#[derive(Clone, Copy, PartialEq, Eq, Structural, Debug)]
pub struct FontLedger {
    pub live: u64,
}

impl FontLedger {
    pub fn new() -> (l: FontLedger)
        ensures
            l.live == 0,
    {
        FontLedger { live: 0 }
    }

    /// Record that a font resource was created.
    pub fn acquire(&mut self)
        requires
            old(self).live < u64::MAX,
        ensures
            final(self).live == old(self).live + 1,
    {
        self.live = self.live + 1;
    }

    /// Record that a font resource was destroyed.
    pub fn release(&mut self)
        requires
            old(self).live > 0,
        ensures
            final(self).live == old(self).live - 1,
    {
        self.live = self.live - 1;
    }
}

} // verus!
