use vstd::prelude::*;

verus! {

/// Which queue submissions the overlay attaches to, and whether the missing
/// command recording was reported already.
pub struct OverlayRenderState {
    caller_text_off: usize,
    target_queue: usize,
    warned_unimplemented: bool,
}

impl OverlayRenderState {
    pub closed spec fn spec_filter(self) -> usize {
        self.caller_text_off
    }

    pub closed spec fn spec_target_queue(self) -> usize {
        self.target_queue
    }

    pub closed spec fn spec_warned(self) -> bool {
        self.warned_unimplemented
    }

    pub fn new() -> (s: Self)
        ensures
            s.spec_filter() == 0,
            s.spec_target_queue() == 0,
            !s.spec_warned(),
    {
        OverlayRenderState { caller_text_off: 0, target_queue: 0, warned_unimplemented: false }
    }

    pub fn set_overlay_submit_filter(&mut self, caller_text_off: usize)
        ensures
            final(self).spec_filter() == caller_text_off,
            final(self).spec_target_queue() == old(self).spec_target_queue(),
            final(self).spec_warned() == old(self).spec_warned(),
    {
        self.caller_text_off = caller_text_off;
    }

    pub fn overlay_submit_filter(&self) -> (off: usize)
        ensures
            off == self.spec_filter(),
    {
        self.caller_text_off
    }

    /// Targets the overlay at `queue`; `None` clears the target.
    pub fn set_overlay_target_queue(&mut self, queue: Option<usize>)
        ensures
            final(self).spec_target_queue() == (match queue {
                Some(q) => q,
                None => 0,
            }),
            final(self).spec_filter() == old(self).spec_filter(),
            final(self).spec_warned() == old(self).spec_warned(),
    {
        self.target_queue = match queue {
            Some(q) => q,
            None => 0,
        };
    }

    pub fn overlay_target_queue(&self) -> (q: Option<usize>)
        ensures
            q == (if self.spec_target_queue() == 0 {
                None::<usize>
            } else {
                Some(self.spec_target_queue())
            }),
    {
        if self.target_queue == 0 {
            None
        } else {
            Some(self.target_queue)
        }
    }

    /// The command handle to append to a submission while `line_count`
    /// primitives are queued, and whether to report, once, that command
    /// recording is not wired yet. No handle is produced yet (always 0).
    pub fn overlay_submit_handle_provider(&mut self, line_count: usize) -> (r: (u64, bool))
        ensures
            r.0 == 0,
            r.1 == (line_count > 0 && !old(self).spec_warned()),
            final(self).spec_warned() == (old(self).spec_warned() || line_count > 0),
            final(self).spec_filter() == old(self).spec_filter(),
            final(self).spec_target_queue() == old(self).spec_target_queue(),
    {
        if line_count == 0 {
            return (0, false);
        }
        let first = !self.warned_unimplemented;
        self.warned_unimplemented = true;
        (0, first)
    }
}

} // verus!
