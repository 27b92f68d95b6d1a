//! The rebuild re-entrancy guard and the surface reset after a dock
//! shrinks.
//!
//! Icon loading can pump the main loop and re-enter a rebuild while one is
//! running; the nested request is recorded and served by another pass of
//! the running rebuild instead of running inside it.

use vstd::prelude::*;

verus! {

/// Whether a rebuild is running and whether another was requested during
/// it.
#[derive(Debug, Clone, Copy, PartialEq, Eq, Structural)]
pub struct RebuildGuard {
    pub running: bool,
    pub pending: bool,
}

impl RebuildGuard {
    /// No rebuild running or requested.
    pub fn new() -> (r: Self)
        ensures
            !r.running && !r.pending,
    {
        RebuildGuard { running: false, pending: false }
    }

    /// A rebuild is requested. Returns whether this call runs it; when one
    /// is already running, the request is recorded for another pass.
    pub fn begin(&mut self) -> (runs: bool)
        ensures
            runs == !old(self).running,
            runs ==> final(self).running && final(self).pending == old(self).pending,
            !runs ==> final(self).running && final(self).pending,
    {
        if self.running {
            self.pending = true;
            return false;
        }
        self.running = true;
        true
    }

    /// Start of a pass: requests so far are served by it.
    pub fn start_pass(&mut self)
        ensures
            final(self).running == old(self).running,
            !final(self).pending,
    {
        self.pending = false;
    }

    /// End of a pass: whether another pass must run (a request arrived
    /// during this one); otherwise the guard is released.
    pub fn end_pass(&mut self) -> (again: bool)
        ensures
            again == old(self).pending,
            again ==> *final(self) == *old(self),
            !again ==> !final(self).running && !final(self).pending,
    {
        if self.pending {
            return true;
        }
        self.running = false;
        false
    }
}

/// A shown dock window whose item count dropped needs its surface reset
/// (hidden and shown) so the compositor shrinks it.
pub fn needs_surface_reset(visible: bool, new_count: usize, prev_count: usize) -> (r: bool)
    ensures
        r == (visible && new_count < prev_count),
{
    visible && new_count < prev_count
}

} // verus!
