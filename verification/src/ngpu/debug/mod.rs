pub mod dbg_draw;
pub mod dbg_render;
pub mod dbg_shaders;

use vstd::prelude::*;

verus! {

/// Whether the debug overlay draws.
pub struct DebugOverlay {
    enabled: bool,
}

impl DebugOverlay {
    pub closed spec fn spec_enabled(self) -> bool {
        self.enabled
    }

    pub fn new() -> (d: Self)
        ensures
            !d.spec_enabled(),
    {
        DebugOverlay { enabled: false }
    }

    pub fn set_enabled(&mut self, enabled: bool)
        ensures
            final(self).spec_enabled() == enabled,
    {
        self.enabled = enabled;
    }

    pub fn enabled(&self) -> (b: bool)
        ensures
            b == self.spec_enabled(),
    {
        self.enabled
    }
}

} // verus!
