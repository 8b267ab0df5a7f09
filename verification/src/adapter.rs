use vstd::prelude::*;

verus! {

/// Shared ownership of one opened adapter.
///
/// The factory mints exactly one handle per opened adapter, counting the
/// sender and the receiver as its two holders. Each holder releases the
/// handle once when it is torn down; the release that brings the count to
/// zero — and only that one — tells the runner to close the adapter, so the
/// native close happens exactly once however the two sides are dropped.
#[derive(Debug)]
pub struct AdapterHandle {
    pub holders: u32,
}

impl AdapterHandle {
    /// Gives up one holder's share. Returns true exactly when the last
    /// holder is gone and the runner must now close the adapter.
    pub fn release(&mut self) -> (close_now: bool)
        requires
            old(self).holders >= 1,
        ensures
            final(self).holders == old(self).holders - 1,
            close_now <==> final(self).holders == 0,
    {
        self.holders = self.holders - 1;
        self.holders == 0
    }
}

} // verus!
