//! The cancellation token: a flag that is set once, when the worker is told
//! to stop, and read by the trigger between its increments of waiting.

use vstd::prelude::*;

verus! {

/// A flag that goes from clear to set, and never back.
#[derive(Debug)]
pub struct CancellationToken {
    cancelled: bool,
}

impl CancellationToken {
    /// Whether the token is set.
    pub closed spec fn cancelled(&self) -> bool {
        self.cancelled
    }

    /// A token that is clear.
    pub fn new() -> (token: CancellationToken)
        ensures
            !token.cancelled(),
    {
        CancellationToken { cancelled: false }
    }

    /// Sets the token, and says whether this call was the one that set it:
    /// a repeated call changes nothing.
    pub fn cancel(&mut self) -> (first: bool)
        ensures
            final(self).cancelled(),
            first == !old(self).cancelled(),
    {
        let first = !self.cancelled;
        self.cancelled = true;
        first
    }

    /// Whether the token is set.
    pub fn is_cancelled(&self) -> (r: bool)
        ensures
            r == self.cancelled(),
    {
        self.cancelled
    }
}

} // verus!
