use vstd::prelude::*;

verus! {

/// Whether the overlay's shaders are ready to draw with.
pub struct ShaderState {
    ready: bool,
}

impl ShaderState {
    pub closed spec fn spec_ready(self) -> bool {
        self.ready
    }

    pub fn new() -> (s: Self)
        ensures
            !s.spec_ready(),
    {
        ShaderState { ready: false }
    }

    pub fn ensure_shaders_ready(&self) -> (b: bool)
        ensures
            b == self.spec_ready(),
    {
        self.ready
    }

    pub fn mark_shaders_ready(&mut self, ready: bool)
        ensures
            final(self).spec_ready() == ready,
    {
        self.ready = ready;
    }
}

} // verus!
