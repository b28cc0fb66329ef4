use vstd::prelude::*;

verus! {

/// A half-open range `start..end` of `usize` positions.
#[derive(Copy, Clone, Debug, PartialEq, Eq, Structural)]
pub struct RangeUsize {
    pub start: usize,
    pub end: usize,
}

impl RangeUsize {
    /// Number of positions covered; an inverted range covers none.
    pub open spec fn spec_len(self) -> nat {
        if self.end >= self.start {
            (self.end - self.start) as nat
        } else {
            0
        }
    }

    /// The set of positions the range covers.
    pub open spec fn positions(self) -> Set<int> {
        Set::new(|p: int| self.start <= p < self.end)
    }

    pub fn len(self) -> (n: usize)
        ensures
            n == self.spec_len(),
    {
        self.end.saturating_sub(self.start)
    }

    pub fn is_empty(self) -> (b: bool)
        ensures
            b <==> self.start >= self.end,
    {
        self.start >= self.end
    }

    /// A range is empty exactly when its length is zero, and then it covers no position.
    pub proof fn lemma_empty_iff_zero_len(self)
        ensures
            (self.start >= self.end) <==> self.spec_len() == 0,
            self.start >= self.end ==> self.positions() =~= Set::<int>::empty(),
    {
    }
}

} // verus!
