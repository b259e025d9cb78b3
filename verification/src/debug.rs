//! The debug-overlay switch. The overlay itself (text, grid, key handling)
//! lives with the presentation layer; the core only keeps the flag and the
//! introspection the overlay displays.

use vstd::prelude::*;

verus! {

/// Whether the debug overlay is shown.
pub struct DebugMode {
    pub enabled: bool,
}

impl Default for DebugMode {
    fn default() -> (d: DebugMode)
        ensures
            !d.enabled,
    {
        DebugMode { enabled: false }
    }
}

impl DebugMode {
    /// Flip the overlay on or off.
    pub fn toggle(&mut self)
        ensures
            final(self).enabled == !old(self).enabled,
    {
        self.enabled = !self.enabled;
    }
}

} // verus!
