use vstd::prelude::*;

verus! {

/// The address a symbol lookup yields: the lookup must succeed (`rc == 0`)
/// and produce a non-zero address.
pub fn lookup_symbol_addr(rc: u32, addr: usize) -> (r: Option<usize>)
    ensures
        r == (if rc == 0 && addr != 0 {
            Some(addr)
        } else {
            None::<usize>
        }),
{
    if rc == 0 && addr != 0 {
        Some(addr)
    } else {
        None
    }
}

/// A looked-up symbol address, cached for repeated calls; zero means not yet found.
pub struct CachedSymbol {
    addr: usize,
    symbol_nul: &'static [u8],
}

impl CachedSymbol {
    pub closed spec fn spec_addr(self) -> usize {
        self.addr
    }

    pub closed spec fn spec_symbol(self) -> Seq<u8> {
        self.symbol_nul@
    }

    pub fn new(symbol_nul: &'static [u8]) -> (s: Self)
        ensures
            s.spec_addr() == 0,
            s.spec_symbol() == symbol_nul@,
    {
        CachedSymbol { addr: 0, symbol_nul }
    }

    /// The nul-terminated name to look up.
    pub fn symbol(&self) -> (s: &'static [u8])
        ensures
            s@ == self.spec_symbol(),
    {
        self.symbol_nul
    }

    /// Stores the outcome of looking the symbol up; returns whether an address
    /// was found. A lookup yields no zero address, so `Some(0)` counts as not found.
    pub fn init(&mut self, found: Option<usize>) -> (ok: bool)
        ensures
            ok == (found matches Some(a) && a != 0),
            final(self).spec_addr() == (match found {
                Some(a) if a != 0 => a,
                _ => old(self).spec_addr(),
            }),
            ok ==> final(self).spec_addr() != 0,
            final(self).spec_symbol() == old(self).spec_symbol(),
    {
        match found {
            Some(a) => {
                if a == 0 {
                    return false;
                }
                self.addr = a;
                true
            },
            None => false,
        }
    }

    pub fn is_initialized(&self) -> (b: bool)
        ensures
            b == (self.spec_addr() != 0),
    {
        self.addr != 0
    }

    pub fn address(&self) -> (a: usize)
        ensures
            a == self.spec_addr(),
    {
        self.addr
    }

    /// The cached address, once one is known.
    pub fn get(&self) -> (a: Option<usize>)
        ensures
            a == (if self.spec_addr() == 0 {
                None::<usize>
            } else {
                Some(self.spec_addr())
            }),
    {
        if self.addr == 0 {
            None
        } else {
            Some(self.addr)
        }
    }
}

} // verus!
