//! The client: the application's count of live windows.

use vstd::prelude::*;

verus! {

/// The number of live windows after one is destroyed, and whether the
/// application must then quit: it must once no window is left.
pub open spec fn after_window_destroyed(count: nat) -> (nat, bool) {
    ((count - 1) as nat, count == 1)
}

/// The client used to send instructions to the system.
///
/// It keeps the number of live windows. A count of zero stands both for "no
/// window was ever created" and for "the last window is gone": once a
/// destruction brings the count back to zero, the application is to quit.
#[derive(Debug, Clone, Copy)]
pub struct Client {
    window_count: u32,
}

impl Client {
    /// The number of live windows.
    pub closed spec fn count(&self) -> nat {
        self.window_count as nat
    }

    /// Create a new `Client`, with no windows.
    pub fn new() -> (r: Self)
        ensures
            r.count() == 0,
    {
        Client { window_count: 0 }
    }

    /// Get the current number of windows.
    pub fn window_count(&self) -> (r: u32)
        ensures
            r as nat == self.count(),
    {
        self.window_count
    }

    /// Count one more window. The count is bounded by `u32::MAX`.
    pub fn increment_window_count(&mut self)
        requires
            old(self).count() < u32::MAX as nat,
        ensures
            final(self).count() == old(self).count() + 1,
    {
        self.window_count = self.window_count + 1;
    }

    /// Count one window less, after a window was destroyed.
    ///
    /// Returns `true` when that was the last live window: the application must
    /// then be told to quit.
    pub fn decrement_window_count(&mut self) -> (quit: bool)
        requires
            old(self).count() > 0,
        ensures
            (final(self).count(), quit) == after_window_destroyed(old(self).count()),
    {
        self.window_count = self.window_count - 1;
        self.window_count == 0
    }
}

impl Default for Client {
    fn default() -> (r: Self)
        ensures
            r.count() == 0,
    {
        Client::new()
    }
}

} // verus!
