use crate::nmem::alignment::{
    is_power_of_two, is_rounded_up, lemma_mask_rounds_up, round_up, usize_is_power_of_two,
};
use vstd::prelude::*;

verus! {

/// How many allocations are logged before the allocator goes quiet.
pub const RIVE_ALLOC_LOG_LIMIT: usize = 8;

/// Counters kept by the renderer's allocator.
#[derive(Copy, Clone, Debug, Default, PartialEq, Eq, Structural)]
pub struct RiveAllocatorStats {
    pub alloc_calls: usize,
    pub realloc_calls: usize,
    pub free_calls: usize,
    pub live_bytes: usize,
    pub peak_bytes: usize,
}

/// The peak never lies below what is live.
pub open spec fn stats_consistent(s: RiveAllocatorStats) -> bool {
    s.peak_bytes >= s.live_bytes
}

/// `x + 1`, wrapping at `usize::MAX` as an atomic increment does.
pub open spec fn wrapping_inc(x: usize) -> usize {
    if x == usize::MAX {
        0
    } else {
        (x + 1) as usize
    }
}

/// Live bytes after a change of `delta`: growth adds, shrinking saturates at zero.
pub open spec fn live_after(live: usize, delta: isize) -> usize {
    if delta >= 0 {
        (live + delta) as usize
    } else if live + delta < 0 {
        0
    } else {
        (live + delta) as usize
    }
}

/// Rounds `value` up to a multiple of the power of two `align`.
pub fn align_up(value: usize, align: usize) -> (r: usize)
    requires
        is_power_of_two(align),
        value + (align - 1) <= usize::MAX,
    ensures
        r == round_up(value as int, align as int),
        is_rounded_up(r as int, value as int, align as int),
{
    proof {
        lemma_mask_rounds_up(value, align);
    }
    (value + (align - 1)) & !(align - 1)
}

/// Applies a change of live bytes and raises the peak to the new live count.
pub fn track_live_bytes(stats: &mut RiveAllocatorStats, delta: isize)
    requires
        delta >= 0 ==> old(stats).live_bytes + delta <= usize::MAX,
        delta > isize::MIN,
    ensures
        *final(stats) == apply_stats(*old(stats), StatsOp::Track(delta)),
        final(stats).live_bytes == live_after(old(stats).live_bytes, delta),
        final(stats).peak_bytes == (if delta >= 0 && final(stats).live_bytes
            > old(stats).peak_bytes {
            final(stats).live_bytes
        } else {
            old(stats).peak_bytes
        }),
        final(stats).alloc_calls == old(stats).alloc_calls,
        final(stats).realloc_calls == old(stats).realloc_calls,
        final(stats).free_calls == old(stats).free_calls,
        stats_consistent(*old(stats)) ==> stats_consistent(*final(stats)),
{
    if delta >= 0 {
        let add = delta as usize;
        let live = stats.live_bytes + add;
        stats.live_bytes = live;
        if live > stats.peak_bytes {
            stats.peak_bytes = live;
        }
    } else {
        let sub = (-delta) as usize;
        stats.live_bytes = stats.live_bytes.saturating_sub(sub);
    }
}

/// A copy of the counters.
pub fn snapshot_rive_allocator_stats(stats: &RiveAllocatorStats) -> (s: RiveAllocatorStats)
    ensures
        s == *stats,
{
    *stats
}

/// Counts a successful allocation of `size` payload bytes; returns the call
/// number and whether it is still among the ones that are logged.
pub fn record_alloc(stats: &mut RiveAllocatorStats, size: usize) -> (r: (usize, bool))
    requires
        size <= isize::MAX,
        old(stats).live_bytes + size <= usize::MAX,
    ensures
        *final(stats) == apply_stats(*old(stats), StatsOp::Alloc(size)),
        r.0 == wrapping_inc(old(stats).alloc_calls),
        r.1 == (r.0 <= RIVE_ALLOC_LOG_LIMIT),
        final(stats).alloc_calls == r.0,
        final(stats).live_bytes == old(stats).live_bytes + size,
        final(stats).peak_bytes == (if final(stats).live_bytes > old(stats).peak_bytes {
            final(stats).live_bytes
        } else {
            old(stats).peak_bytes
        }),
        final(stats).realloc_calls == old(stats).realloc_calls,
        final(stats).free_calls == old(stats).free_calls,
        stats_consistent(*old(stats)) ==> stats_consistent(*final(stats)),
{
    let call = stats.alloc_calls.wrapping_add(1);
    stats.alloc_calls = call;
    track_live_bytes(stats, size as isize);
    (call, call <= RIVE_ALLOC_LOG_LIMIT)
}

/// Counts a release of a block holding `payload_size` bytes.
pub fn record_free(stats: &mut RiveAllocatorStats, payload_size: usize)
    requires
        payload_size <= isize::MAX,
    ensures
        *final(stats) == apply_stats(*old(stats), StatsOp::Free(payload_size)),
        final(stats).free_calls == wrapping_inc(old(stats).free_calls),
        final(stats).live_bytes == live_after(old(stats).live_bytes, -(payload_size as int) as isize),
        final(stats).peak_bytes == old(stats).peak_bytes,
        final(stats).alloc_calls == old(stats).alloc_calls,
        final(stats).realloc_calls == old(stats).realloc_calls,
        stats_consistent(*old(stats)) ==> stats_consistent(*final(stats)),
{
    stats.free_calls = stats.free_calls.wrapping_add(1);
    let delta = -(payload_size as isize);
    if delta == 0 {
        return;
    }
    track_live_bytes(stats, delta);
}

/// Counts a reallocation attempt.
pub fn record_realloc(stats: &mut RiveAllocatorStats)
    ensures
        *final(stats) == apply_stats(*old(stats), StatsOp::Realloc),
        final(stats).realloc_calls == wrapping_inc(old(stats).realloc_calls),
        final(stats).alloc_calls == old(stats).alloc_calls,
        final(stats).free_calls == old(stats).free_calls,
        final(stats).live_bytes == old(stats).live_bytes,
        final(stats).peak_bytes == old(stats).peak_bytes,
{
    stats.realloc_calls = stats.realloc_calls.wrapping_add(1);
}

/// How a block for an allocation is obtained.
#[derive(Copy, Clone, Debug, PartialEq, Eq, Structural)]
pub enum AllocRoute {
    /// Nothing is allocated: the request was empty.
    Null,
    /// `malloc(size)` suffices for alignments up to a machine word.
    Malloc,
    /// `aligned_alloc(alignment, size)` for stricter alignments.
    AlignedAlloc,
}

/// Chooses the system allocation routine for a block.
pub fn switch_alloc_route(size: usize, alignment: usize, word_align: usize) -> (r: AllocRoute)
    ensures
        r == (if size == 0 {
            AllocRoute::Null
        } else if alignment <= word_align {
            AllocRoute::Malloc
        } else {
            AllocRoute::AlignedAlloc
        }),
{
    if size == 0 {
        AllocRoute::Null
    } else if alignment <= word_align {
        AllocRoute::Malloc
    } else {
        AllocRoute::AlignedAlloc
    }
}

/// The block to obtain for an allocation: room for the payload, the header
/// placed right before it, and the padding needed to align the payload.
#[derive(Copy, Clone, Debug, PartialEq, Eq, Structural)]
pub struct RiveAllocPlan {
    pub requested_align: usize,
    pub alloc_size: usize,
    pub alloc_align: usize,
}

pub open spec fn max_usize(a: usize, b: usize) -> usize {
    if a >= b {
        a
    } else {
        b
    }
}

/// The plan for a request of `size` bytes at `alignment`, or `None` when the
/// request is empty, the effective alignment is not a power of two, or the
/// block size overflows.
pub open spec fn rive_alloc_plan_spec(
    size: usize,
    alignment: usize,
    word_align: usize,
    header_size: usize,
    header_align: usize,
) -> Option<RiveAllocPlan> {
    let requested = max_usize(alignment, word_align);
    if size == 0 || !is_power_of_two(requested) || size + requested + header_size > usize::MAX {
        None
    } else {
        Some(
            RiveAllocPlan {
                requested_align: requested,
                alloc_size: (size + requested + header_size) as usize,
                alloc_align: max_usize(requested, header_align),
            },
        )
    }
}

/// Plans the block for a renderer allocation; `word_align` is the alignment of
/// a machine word and `header_size`/`header_align` describe the header that
/// precedes each payload.
pub fn plan_rive_alloc(
    size: usize,
    alignment: usize,
    word_align: usize,
    header_size: usize,
    header_align: usize,
) -> (r: Option<RiveAllocPlan>)
    ensures
        r == rive_alloc_plan_spec(size, alignment, word_align, header_size, header_align),
{
    if size == 0 {
        return None;
    }
    let requested_align = if alignment >= word_align {
        alignment
    } else {
        word_align
    };
    if !usize_is_power_of_two(requested_align) {
        return None;
    }
    let alloc_align = if requested_align >= header_align {
        requested_align
    } else {
        header_align
    };
    if requested_align > usize::MAX - size {
        return None;
    }
    let with_align = size + requested_align;
    if header_size > usize::MAX - with_align {
        return None;
    }
    Some(RiveAllocPlan { requested_align, alloc_size: with_align + header_size, alloc_align })
}

/// Where the payload and its header go inside a block.
#[derive(Copy, Clone, Debug, PartialEq, Eq, Structural)]
pub struct PayloadPlacement {
    pub payload_addr: usize,
    pub header_addr: usize,
}

/// Places the payload at the first aligned address after room for the header,
/// and the header right before it.
///
/// The header and the payload then both lie inside the block `base..base + alloc_size`.
pub fn place_payload(base: usize, size: usize, header_size: usize, requested_align: usize) -> (p:
    PayloadPlacement)
    requires
        is_power_of_two(requested_align),
        base + size + requested_align + header_size <= usize::MAX,
    ensures
        p.payload_addr == round_up(base + header_size, requested_align as int),
        (p.payload_addr as int) % (requested_align as int) == 0,
        p.header_addr + header_size == p.payload_addr,
        base <= p.header_addr,
        p.payload_addr + size <= base + size + requested_align + header_size,
{
    let payload_start = base + header_size;
    let payload_addr = align_up(payload_start, requested_align);
    PayloadPlacement { payload_addr, header_addr: payload_addr - header_size }
}

/// What a reallocation does with the block it is given.
#[derive(Copy, Clone, Debug, PartialEq, Eq, Structural)]
pub enum ReallocStep {
    /// No block yet: allocate a fresh one at word alignment.
    AllocateFresh,
    /// The new size is zero: release the block and return null.
    FreeOnly,
    /// The recorded alignment is unusable: leave the block and return null.
    Reject,
    /// Allocate a new block at the recorded alignment, copy and release the old one.
    Move,
}

/// Decides a reallocation from whether a block is given, the new size, and
/// the alignment recorded in the block's header.
pub fn plan_realloc(has_block: bool, new_size: usize, recorded_align: usize) -> (s: ReallocStep)
    ensures
        s == (if !has_block {
            ReallocStep::AllocateFresh
        } else if new_size == 0 {
            ReallocStep::FreeOnly
        } else if recorded_align == 0 || !is_power_of_two(recorded_align) {
            ReallocStep::Reject
        } else {
            ReallocStep::Move
        }),
{
    if !has_block {
        ReallocStep::AllocateFresh
    } else if new_size == 0 {
        ReallocStep::FreeOnly
    } else if recorded_align == 0 || !usize_is_power_of_two(recorded_align) {
        ReallocStep::Reject
    } else {
        ReallocStep::Move
    }
}

/// Bytes carried over by a reallocation: the smaller of the two payload sizes.
pub fn realloc_copy_len(old_size: usize, new_size: usize) -> (n: usize)
    ensures
        n <= old_size,
        n <= new_size,
        n == old_size || n == new_size,
{
    if old_size <= new_size {
        old_size
    } else {
        new_size
    }
}

/// Releasing a block undoes the live bytes its allocation added.
pub proof fn lemma_free_undoes_alloc(live: usize, size: usize)
    requires
        size <= isize::MAX,
        live + size <= usize::MAX,
    ensures
        live_after(live_after(live, size as isize), -(size as int) as isize) == live,
{
}

/// A call that changes the allocator's counters.
pub enum StatsOp {
    Alloc(usize),
    Free(usize),
    Realloc,
    Track(isize),
}

/// The counters after one call.
pub open spec fn apply_stats(s: RiveAllocatorStats, op: StatsOp) -> RiveAllocatorStats {
    match op {
        StatsOp::Alloc(size) => RiveAllocatorStats {
            alloc_calls: wrapping_inc(s.alloc_calls),
            live_bytes: (s.live_bytes + size) as usize,
            peak_bytes: if s.live_bytes + size > s.peak_bytes {
                (s.live_bytes + size) as usize
            } else {
                s.peak_bytes
            },
            ..s
        },
        StatsOp::Free(size) => RiveAllocatorStats {
            free_calls: wrapping_inc(s.free_calls),
            live_bytes: live_after(s.live_bytes, -(size as int) as isize),
            ..s
        },
        StatsOp::Realloc => RiveAllocatorStats { realloc_calls: wrapping_inc(s.realloc_calls), ..s },
        StatsOp::Track(delta) => RiveAllocatorStats {
            live_bytes: live_after(s.live_bytes, delta),
            peak_bytes: if delta >= 0 && live_after(s.live_bytes, delta) > s.peak_bytes {
                live_after(s.live_bytes, delta)
            } else {
                s.peak_bytes
            },
            ..s
        },
    }
}

/// The call can be made on counters `s`: what its function requires.
pub open spec fn stats_op_allowed(s: RiveAllocatorStats, op: StatsOp) -> bool {
    match op {
        StatsOp::Alloc(size) => size <= isize::MAX && s.live_bytes + size <= usize::MAX,
        StatsOp::Free(size) => size <= isize::MAX,
        StatsOp::Realloc => true,
        StatsOp::Track(delta) => (delta >= 0 ==> s.live_bytes + delta <= usize::MAX) && delta
            > isize::MIN,
    }
}

/// The counters after the calls `ops`, in order, starting from `s`.
pub open spec fn run_stats(s: RiveAllocatorStats, ops: Seq<StatsOp>) -> RiveAllocatorStats
    decreases ops.len(),
{
    if ops.len() == 0 {
        s
    } else {
        apply_stats(run_stats(s, ops.drop_last()), ops.last())
    }
}

/// Every call of `ops`, made in order from `s`, is allowed where it is made.
pub open spec fn stats_ops_allowed(s: RiveAllocatorStats, ops: Seq<StatsOp>) -> bool
    decreases ops.len(),
{
    ops.len() == 0 || (stats_ops_allowed(s, ops.drop_last()) && stats_op_allowed(
        run_stats(s, ops.drop_last()),
        ops.last(),
    ))
}

/// How many calls of `ops` are allocations, releases and reallocations.
pub open spec fn count_stats_ops(ops: Seq<StatsOp>) -> (nat, nat, nat)
    decreases ops.len(),
{
    if ops.len() == 0 {
        (0, 0, 0)
    } else {
        let c = count_stats_ops(ops.drop_last());
        match ops.last() {
            StatsOp::Alloc(_) => ((c.0 + 1) as nat, c.1, c.2),
            StatsOp::Free(_) => (c.0, (c.1 + 1) as nat, c.2),
            StatsOp::Realloc => (c.0, c.1, (c.2 + 1) as nat),
            StatsOp::Track(_) => c,
        }
    }
}

/// Between two snapshots of consistent counters: live bytes never exceed the
/// peak, the peak never falls, and each call counter grows by the number of
/// such calls made, so it never falls unless it passed `usize::MAX` and wrapped.
pub proof fn lemma_stats_history(s: RiveAllocatorStats, ops: Seq<StatsOp>)
    requires
        stats_consistent(s),
        stats_ops_allowed(s, ops),
    ensures
        stats_consistent(run_stats(s, ops)),
        run_stats(s, ops).peak_bytes >= s.peak_bytes,
        s.alloc_calls + count_stats_ops(ops).0 <= usize::MAX ==> run_stats(s, ops).alloc_calls
            == s.alloc_calls + count_stats_ops(ops).0,
        s.free_calls + count_stats_ops(ops).1 <= usize::MAX ==> run_stats(s, ops).free_calls
            == s.free_calls + count_stats_ops(ops).1,
        s.realloc_calls + count_stats_ops(ops).2 <= usize::MAX ==> run_stats(s, ops).realloc_calls
            == s.realloc_calls + count_stats_ops(ops).2,
    decreases ops.len(),
{
    if ops.len() > 0 {
        lemma_stats_history(s, ops.drop_last());
    }
}

} // verus!
