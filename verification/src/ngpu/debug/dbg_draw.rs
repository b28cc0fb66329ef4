use vstd::prelude::*;

verus! {

/// The debug primitives queued for the next overlay frame, in order.
pub struct DrawList<T> {
    lines: Vec<T>,
}

impl<T: Copy> DrawList<T> {
    pub closed spec fn items(self) -> Seq<T> {
        self.lines@
    }

    pub fn new() -> (d: Self)
        ensures
            d.items() == Seq::<T>::empty(),
    {
        DrawList { lines: Vec::new() }
    }

    pub fn clear_draw_list(&mut self)
        ensures
            final(self).items() == Seq::<T>::empty(),
    {
        self.lines.clear();
    }

    pub fn push_line(&mut self, line: T)
        ensures
            final(self).items() == old(self).items().push(line),
    {
        self.lines.push(line);
    }

    pub fn len(&self) -> (n: usize)
        ensures
            n == self.items().len(),
    {
        self.lines.len()
    }

    /// A copy of the queued primitives.
    pub fn lines_snapshot(&self) -> (v: Vec<T>)
        ensures
            v@ == self.items(),
    {
        vstd::slice::slice_to_vec(self.lines.as_slice())
    }
}

} // verus!
