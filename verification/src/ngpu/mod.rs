pub mod bootstrap;
pub mod debug;
pub mod resources;

use vstd::prelude::*;

verus! {

/// Whether the GPU entry points were set up.
pub struct GpuInit {
    initialized: bool,
}

impl GpuInit {
    pub closed spec fn spec_initialized(self) -> bool {
        self.initialized
    }

    pub fn new() -> (g: Self)
        ensures
            !g.spec_initialized(),
    {
        GpuInit { initialized: false }
    }

    /// One-time setup of the GPU entry points from the slot table: returns
    /// whether the entry points must be resolved now, which is so on the first
    /// call only; afterwards the setup is recorded as done.
    pub fn initialize_from_slots(&mut self) -> (must_resolve: bool)
        ensures
            must_resolve == !old(self).spec_initialized(),
            final(self).spec_initialized(),
    {
        if self.initialized {
            return false;
        }
        self.initialized = true;
        true
    }

    /// The entry point of the one-time setup: `initialize_from_slots`.
    pub fn initialize(&mut self) -> (must_resolve: bool)
        ensures
            must_resolve == !old(self).spec_initialized(),
            final(self).spec_initialized(),
    {
        self.initialize_from_slots()
    }

    pub fn is_initialized(&self) -> (b: bool)
        ensures
            b == self.spec_initialized(),
    {
        self.initialized
    }
}

/// The base address of the program's text region, resolved once and then
/// reused; zero stands for "not resolved yet".
pub struct TextBaseCache {
    cached: usize,
}

impl TextBaseCache {
    pub closed spec fn spec_cached(self) -> usize {
        self.cached
    }

    pub fn new() -> (c: Self)
        ensures
            c.spec_cached() == 0,
    {
        TextBaseCache { cached: 0 }
    }

    /// The base resolved earlier, if any.
    pub fn cached(&self) -> (b: Option<usize>)
        ensures
            b == (if self.spec_cached() != 0 {
                Some(self.spec_cached())
            } else {
                None::<usize>
            }),
    {
        if self.cached != 0 {
            Some(self.cached)
        } else {
            None
        }
    }

    /// The base to use: the cached one when there is one, otherwise
    /// `resolved`, which is kept for later calls.
    pub fn text_base(&mut self, resolved: usize) -> (b: usize)
        ensures
            b == text_base_step(old(self).spec_cached(), resolved),
            final(self).spec_cached() == b,
    {
        if self.cached != 0 {
            return self.cached;
        }
        self.cached = resolved;
        resolved
    }
}

/// The address of the function-pointer slot at `slot_offset` in the text
/// region starting at `text_base`; `None` where the sum leaves the address space.
pub fn slot_address(text_base: usize, slot_offset: usize) -> (a: Option<usize>)
    ensures
        a == (if text_base + slot_offset <= usize::MAX {
            Some((text_base + slot_offset) as usize)
        } else {
            None::<usize>
        }),
{
    text_base.checked_add(slot_offset)
}

/// A lookup of the text base: the cached base when there is one, else `resolved`.
pub open spec fn text_base_step(cached: usize, resolved: usize) -> usize {
    if cached != 0 {
        cached
    } else {
        resolved
    }
}

/// Once a lookup yields a non-zero base, every later lookup yields that same
/// base, whatever a new resolution would have returned.
pub proof fn lemma_text_base_resolved_once(cached: usize, first: usize, later: usize)
    requires
        text_base_step(cached, first) != 0,
    ensures
        text_base_step(text_base_step(cached, first), later) == text_base_step(cached, first),
{
}

} // verus!
