use crate::nmem::alignment::{
    is_power_of_two, lemma_mask_rounds_up, round_up, usize_is_power_of_two,
};
use vstd::prelude::*;

verus! {

/// Why building a pool, an arena or a command buffer failed.
#[derive(Copy, Clone, Debug, PartialEq, Eq, Structural)]
pub enum MemoryPoolError {
    InvalidSize,
    InvalidAlignment,
    AllocLayout,
    AllocFailed,
    DeviceNull,
    InitializeFailed,
    ArenaExhausted,
    CommandBufferInitFailed,
}

/// A byte range handed out by a [`LinearPoolAllocator`].
#[derive(Copy, Clone, Debug, PartialEq, Eq, Structural)]
pub struct PoolAllocation {
    pub offset: usize,
    pub size: usize,
}

/// Where a command buffer's command memory (in the pool) and control memory
/// (in the arena's host storage) live.
#[derive(Copy, Clone, Debug, PartialEq, Eq, Structural)]
pub struct CommandBufferBacking {
    pub command_offset: usize,
    pub command_size: usize,
    pub control_offset: usize,
    pub control_size: usize,
}

/// What `Layout::from_size_align` accepts, as its documentation states it: a
/// power-of-two alignment, and a size that rounded up to it stays within `isize::MAX`.
pub open spec fn layout_accepts(size: usize, align: usize) -> bool {
    is_power_of_two(align) && round_up(size as int, align as int) <= isize::MAX
}

/// std's `Layout::from_size_align`, reduced to whether it returns `Ok`; its
/// documentation lists exactly the conditions of `layout_accepts`.
#[verifier::external_body]
pub(crate) fn layout_from_size_align_is_ok(size: usize, align: usize) -> (ok: bool)
    ensures
        ok == layout_accepts(size, align),
{
    core::alloc::Layout::from_size_align(size, align).is_ok()
}

/// The outcome of checking a request for aligned host storage, in the order
/// the checks are made: size, alignment, then the layout.
pub open spec fn storage_request_result(size: usize, alignment: usize) -> Result<(), MemoryPoolError> {
    if size == 0 {
        Err(MemoryPoolError::InvalidSize)
    } else if alignment == 0 || !is_power_of_two(alignment) {
        Err(MemoryPoolError::InvalidAlignment)
    } else if !layout_accepts(size, alignment) {
        Err(MemoryPoolError::AllocLayout)
    } else {
        Ok(())
    }
}

/// Checks a storage request before anything is allocated.
pub fn check_storage_request(size: usize, alignment: usize) -> (r: Result<(), MemoryPoolError>)
    ensures
        r == storage_request_result(size, alignment),
{
    if size == 0 {
        return Err(MemoryPoolError::InvalidSize);
    }
    if alignment == 0 || !usize_is_power_of_two(alignment) {
        return Err(MemoryPoolError::InvalidAlignment);
    }
    if !layout_from_size_align_is_ok(size, alignment) {
        return Err(MemoryPoolError::AllocLayout);
    }
    Ok(())
}

/// Zeroed host memory of `size` bytes at address `addr`, aligned to `alignment`.
pub struct AlignedStorage {
    addr: usize,
    size: usize,
    alignment: usize,
}

impl AlignedStorage {
    #[verifier::type_invariant]
    spec fn wf(self) -> bool {
        &&& self.addr != 0
        &&& self.size > 0
        &&& is_power_of_two(self.alignment)
    }

    pub closed spec fn spec_addr(self) -> usize {
        self.addr
    }

    pub closed spec fn spec_size(self) -> usize {
        self.size
    }

    pub closed spec fn spec_alignment(self) -> usize {
        self.alignment
    }

    /// Records storage that was allocated for a checked request; `addr` is what
    /// the allocator returned, 0 when it failed.
    pub fn new(size: usize, alignment: usize, addr: usize) -> (r: Result<Self, MemoryPoolError>)
        ensures
            match r {
                Ok(s) => {
                    &&& storage_request_result(size, alignment) is Ok
                    &&& addr != 0
                    &&& s.spec_addr() == addr
                    &&& s.spec_size() == size
                    &&& s.spec_alignment() == alignment
                },
                Err(e) => match storage_request_result(size, alignment) {
                    Err(e0) => e == e0,
                    Ok(_) => addr == 0 && e == MemoryPoolError::AllocFailed,
                },
            },
    {
        match check_storage_request(size, alignment) {
            Err(e) => Err(e),
            Ok(()) => {
                if addr == 0 {
                    Err(MemoryPoolError::AllocFailed)
                } else {
                    Ok(AlignedStorage { addr, size, alignment })
                }
            },
        }
    }

    pub fn as_mut_ptr(&self) -> (p: usize)
        ensures
            p == self.spec_addr(),
            p != 0,
    {
        proof {
            use_type_invariant(self);
        }
        self.addr
    }

    pub fn size(&self) -> (n: usize)
        ensures
            n == self.spec_size(),
            n > 0,
    {
        proof {
            use_type_invariant(self);
        }
        self.size
    }
}

/// Whether an allocation of `size` bytes at `alignment` fits in a pool of
/// `capacity` bytes whose first `used` bytes are taken.
pub open spec fn alloc_fits(used: nat, capacity: nat, size: usize, alignment: usize) -> bool {
    &&& size != 0
    &&& is_power_of_two(alignment)
    &&& round_up(used as int, alignment as int) + size <= capacity
}

/// The offset at which such an allocation is placed.
pub open spec fn alloc_offset(used: nat, alignment: usize) -> int {
    round_up(used as int, alignment as int)
}

/// No arithmetic overflow can occur while placing the allocation.
pub open spec fn alloc_in_range(used: nat, size: usize, alignment: usize) -> bool {
    (size != 0 && is_power_of_two(alignment)) ==> used + alignment - 1 <= usize::MAX
}

/// Simple aligned linear allocator over a byte range of `capacity` bytes.
///
/// There is no free list: `reset` at frame boundaries makes the whole range
/// available again.
pub struct LinearPoolAllocator {
    capacity: usize,
    cursor: usize,
}

impl LinearPoolAllocator {
    #[verifier::type_invariant]
    spec fn wf(self) -> bool {
        self.cursor <= self.capacity
    }

    /// Size of the managed range.
    pub closed spec fn spec_capacity(self) -> nat {
        self.capacity as nat
    }

    /// Bytes taken since creation or the last reset.
    pub closed spec fn spec_used(self) -> nat {
        self.cursor as nat
    }

    pub fn new(capacity: usize) -> (a: Self)
        ensures
            a.spec_capacity() == capacity,
            a.spec_used() == 0,
            a.spec_used() == pool_used_after(capacity as nat, Seq::<PoolOp>::empty()),
    {
        LinearPoolAllocator { capacity, cursor: 0 }
    }

    pub fn reset(&mut self)
        ensures
            final(self).spec_capacity() == old(self).spec_capacity(),
            final(self).spec_used() == 0,
            final(self).spec_used() == pool_used_after_op(old(self).spec_used(), old(self).spec_capacity(), PoolOp::Reset),
        no_unwind
    {
        self.cursor = 0;
    }

    pub fn used(&self) -> (n: usize)
        ensures
            n == self.spec_used(),
            n <= self.spec_capacity(),
    {
        proof {
            use_type_invariant(self);
        }
        self.cursor
    }

    pub fn remaining(&self) -> (n: usize)
        ensures
            n == self.spec_capacity() - self.spec_used(),
            n + self.spec_used() == self.spec_capacity(),
    {
        proof {
            use_type_invariant(self);
        }
        self.capacity.saturating_sub(self.cursor)
    }

    /// Places `size` bytes at the next multiple of `alignment`.
    ///
    /// Refuses an empty request, an alignment that is not a power of two, and a
    /// request that does not fit; a refused request leaves the allocator as it was.
    pub fn allocate(&mut self, size: usize, alignment: usize) -> (res: Option<PoolAllocation>)
        requires
            alloc_in_range(old(self).spec_used(), size, alignment),
        ensures
            final(self).spec_capacity() == old(self).spec_capacity(),
            res is Some <==> alloc_fits(old(self).spec_used(), old(self).spec_capacity(), size, alignment),
            final(self).spec_used() == pool_used_after_op(
                old(self).spec_used(),
                old(self).spec_capacity(),
                PoolOp::Allocate(size, alignment),
            ),
            match res {
                Some(p) => {
                    &&& p.offset == alloc_offset(old(self).spec_used(), alignment)
                    &&& (p.offset as int) % (alignment as int) == 0
                    &&& old(self).spec_used() <= p.offset
                    &&& p.size == size
                    &&& p.offset + p.size <= old(self).spec_capacity()
                    &&& final(self).spec_used() == p.offset + p.size
                },
                None => final(self).spec_used() == old(self).spec_used(),
            },
        no_unwind
    {
        proof {
            use_type_invariant(&*self);
        }
        proof {
            crate::nmem::alignment::lemma_zero_not_power_of_two();
        }
        if size == 0 || alignment == 0 || !usize_is_power_of_two(alignment) {
            return None;
        }
        proof {
            lemma_mask_rounds_up(self.cursor, alignment);
        }
        let aligned = (self.cursor + (alignment - 1)) & !(alignment - 1);
        if size > usize::MAX - aligned {
            return None;
        }
        let end = aligned + size;
        if end > self.capacity {
            return None;
        }
        self.cursor = end;
        Some(PoolAllocation { offset: aligned, size })
    }
}

/// An allocation that fits ends no later than the capacity, and the next one
/// starts no earlier than where it ended: allocations made one after the other
/// between two resets never overlap.
pub proof fn lemma_successive_allocations_disjoint(
    used: nat,
    capacity: nat,
    size1: usize,
    align1: usize,
    size2: usize,
    align2: usize,
)
    requires
        alloc_fits(used, capacity, size1, align1),
        alloc_fits(
            (alloc_offset(used, align1) + size1) as nat,
            capacity,
            size2,
            align2,
        ),
    ensures
        used <= alloc_offset(used, align1),
        alloc_offset(used, align1) + size1 <= alloc_offset(
            (alloc_offset(used, align1) + size1) as nat,
            align2,
        ),
        alloc_offset((alloc_offset(used, align1) + size1) as nat, align2) + size2 <= capacity,
{
    let k1 = choose|k: nat| k < usize::BITS && #[trigger] vstd::arithmetic::power2::pow2(k) == align1;
    let k2 = choose|k: nat| k < usize::BITS && #[trigger] vstd::arithmetic::power2::pow2(k) == align2;
    vstd::arithmetic::power2::lemma_pow2_pos(k1);
    vstd::arithmetic::power2::lemma_pow2_pos(k2);
    crate::nmem::alignment::lemma_round_up_is_rounded_up(used as int, align1 as int);
    crate::nmem::alignment::lemma_round_up_is_rounded_up(
        alloc_offset(used, align1) + size1,
        align2 as int,
    );
}

/// A call that changes a linear allocator: an allocation request or a reset.
pub enum PoolOp {
    Allocate(usize, usize),
    Reset,
}

/// The bytes taken after one call, from `used` taken out of `capacity`.
pub open spec fn pool_used_after_op(used: nat, capacity: nat, op: PoolOp) -> nat {
    match op {
        PoolOp::Allocate(size, alignment) => if alloc_fits(used, capacity, size, alignment) {
            (alloc_offset(used, alignment) + size) as nat
        } else {
            used
        },
        PoolOp::Reset => 0,
    }
}

/// The bytes taken after the calls `ops`, in order, on a new allocator of `capacity` bytes.
pub open spec fn pool_used_after(capacity: nat, ops: Seq<PoolOp>) -> nat
    decreases ops.len(),
{
    if ops.len() == 0 {
        0
    } else {
        pool_used_after_op(pool_used_after(capacity, ops.drop_last()), capacity, ops.last())
    }
}

/// Whether `ops` holds no reset.
pub open spec fn no_reset(ops: Seq<PoolOp>) -> bool {
    forall|i: int| 0 <= i < ops.len() ==> !(#[trigger] ops[i] is Reset)
}

/// One call never takes more than the capacity, an allocation never lowers
/// what is taken, and a refused one leaves it as it was.
pub proof fn lemma_pool_op_keeps_bounds(used: nat, capacity: nat, op: PoolOp)
    requires
        used <= capacity,
    ensures
        pool_used_after_op(used, capacity, op) <= capacity,
        op is Allocate ==> pool_used_after_op(used, capacity, op) >= used,
        op matches PoolOp::Allocate(size, alignment) && !alloc_fits(used, capacity, size, alignment)
            ==> pool_used_after_op(used, capacity, op) == used,
{
    if let PoolOp::Allocate(size, alignment) = op {
        if alloc_fits(used, capacity, size, alignment) {
            let k = choose|k: nat| k < usize::BITS && #[trigger] vstd::arithmetic::power2::pow2(k) == alignment;
            vstd::arithmetic::power2::lemma_pow2_pos(k);
            crate::nmem::alignment::lemma_round_up_is_rounded_up(used as int, alignment as int);
        }
    }
}

/// Whatever calls a new allocator receives, it never takes more than its
/// capacity; between two resets what it has taken never decreases; and a
/// refused allocation leaves it unchanged.
pub proof fn lemma_pool_used_history(capacity: nat, ops: Seq<PoolOp>, later: Seq<PoolOp>)
    ensures
        pool_used_after(capacity, ops) <= capacity,
        no_reset(later) ==> pool_used_after(capacity, ops + later) >= pool_used_after(capacity, ops),
        later.len() == 1 && (later[0] matches PoolOp::Allocate(size, alignment) && !alloc_fits(
            pool_used_after(capacity, ops),
            capacity,
            size,
            alignment,
        )) ==> pool_used_after(capacity, ops + later) == pool_used_after(capacity, ops),
    decreases ops.len() + later.len(),
{
    if later.len() > 0 {
        lemma_pool_used_history(capacity, ops, later.drop_last());
        assert((ops + later).drop_last() =~= ops + later.drop_last());
        lemma_pool_used_history(capacity, ops + later.drop_last(), Seq::<PoolOp>::empty());
        lemma_pool_op_keeps_bounds(
            pool_used_after(capacity, ops + later.drop_last()),
            capacity,
            later.last(),
        );
        if no_reset(later) {
            assert(no_reset(later.drop_last()));
            assert(later[later.len() - 1] !is Reset);
        }
        if later.len() == 1 {
            assert(later.drop_last() =~= Seq::<PoolOp>::empty());
            assert(ops + Seq::<PoolOp>::empty() =~= ops);
        }
    } else {
        assert(ops + later =~= ops);
        if ops.len() > 0 {
            lemma_pool_used_history(capacity, ops.drop_last(), Seq::<PoolOp>::empty());
            assert(ops.drop_last() + Seq::<PoolOp>::empty() =~= ops.drop_last());
            lemma_pool_op_keeps_bounds(pool_used_after(capacity, ops.drop_last()), capacity, ops.last());
        }
    }
}

/// An NVN memory pool whose host storage this library owns.
///
/// The driver objects themselves live behind `pool_addr` and `builder_addr`.
pub struct OwnedMemoryPool {
    storage: AlignedStorage,
    builder_addr: usize,
    pool_addr: usize,
    device: usize,
    flags: i32,
    finalized: bool,
}

impl OwnedMemoryPool {
    pub closed spec fn spec_size(self) -> usize {
        self.storage.spec_size()
    }

    pub closed spec fn spec_storage_addr(self) -> usize {
        self.storage.spec_addr()
    }

    pub closed spec fn spec_flags(self) -> i32 {
        self.flags
    }

    pub closed spec fn spec_device(self) -> usize {
        self.device
    }

    pub closed spec fn spec_pool_addr(self) -> usize {
        self.pool_addr
    }

    pub closed spec fn spec_builder_addr(self) -> usize {
        self.builder_addr
    }

    pub closed spec fn spec_finalized(self) -> bool {
        self.finalized
    }

    /// Checks a pool request before anything is allocated: the device first,
    /// then the storage request.
    pub fn check_request(device: usize, size: usize, alignment: usize) -> (r: Result<
        (),
        MemoryPoolError,
    >)
        ensures
            r == (if device == 0 {
                Err(MemoryPoolError::DeviceNull)
            } else {
                storage_request_result(size, alignment)
            }),
    {
        if device == 0 {
            return Err(MemoryPoolError::DeviceNull);
        }
        check_storage_request(size, alignment)
    }

    /// Completes a pool once the driver has been asked to initialize it.
    ///
    /// A null device is refused before anything else; a driver that refused
    /// the pool gives `InitializeFailed`.
    pub fn new(
        device: usize,
        storage: AlignedStorage,
        flags: i32,
        builder_addr: usize,
        pool_addr: usize,
        initialized: bool,
    ) -> (r: Result<Self, MemoryPoolError>)
        ensures
            device == 0 ==> r == Err::<Self, MemoryPoolError>(MemoryPoolError::DeviceNull),
            device != 0 && !initialized ==> r == Err::<Self, MemoryPoolError>(
                MemoryPoolError::InitializeFailed,
            ),
            device != 0 && initialized ==> r is Ok,
            match r {
                Ok(p) => {
                    &&& p.spec_size() == storage.spec_size()
                    &&& p.spec_storage_addr() == storage.spec_addr()
                    &&& p.spec_flags() == flags
                    &&& p.spec_device() == device
                    &&& p.spec_pool_addr() == pool_addr
                    &&& p.spec_builder_addr() == builder_addr
                    &&& !p.spec_finalized()
                },
                Err(_) => true,
            },
    {
        if device == 0 {
            return Err(MemoryPoolError::DeviceNull);
        }
        if !initialized {
            return Err(MemoryPoolError::InitializeFailed);
        }
        Ok(OwnedMemoryPool { storage, builder_addr, pool_addr, device, flags, finalized: false })
    }

    pub fn as_raw_pool_ptr(&self) -> (p: usize)
        ensures
            p == self.spec_pool_addr(),
    {
        self.pool_addr
    }

    pub fn as_raw_builder_ptr(&self) -> (p: usize)
        ensures
            p == self.spec_builder_addr(),
    {
        self.builder_addr
    }

    pub fn size(&self) -> (n: usize)
        ensures
            n == self.spec_size(),
    {
        self.storage.size()
    }

    pub fn storage_ptr(&self) -> (p: usize)
        ensures
            p == self.spec_storage_addr(),
    {
        self.storage.as_mut_ptr()
    }

    pub fn flags(&self) -> (f: i32)
        ensures
            f == self.spec_flags(),
    {
        self.flags
    }

    pub fn device_ptr(&self) -> (d: usize)
        ensures
            d == self.spec_device(),
    {
        self.device
    }

    /// Marks the pool finalized; returns whether the driver must be asked to
    /// finalize it now (only the first time).
    pub fn finalize(&mut self) -> (must_finalize: bool)
        ensures
            must_finalize == !old(self).spec_finalized(),
            final(self).spec_finalized(),
            final(self).spec_size() == old(self).spec_size(),
            final(self).spec_storage_addr() == old(self).spec_storage_addr(),
            final(self).spec_pool_addr() == old(self).spec_pool_addr(),
            final(self).spec_builder_addr() == old(self).spec_builder_addr(),
            final(self).spec_device() == old(self).spec_device(),
            final(self).spec_flags() == old(self).spec_flags(),
        no_unwind
    {
        if self.finalized {
            return false;
        }
        self.finalized = true;
        true
    }
}

/// Command memory (in an NVN pool) and control memory (in host storage) for
/// command buffers, each handed out by a linear allocator.
pub struct CommandBufferArena {
    pool: OwnedMemoryPool,
    command_alloc: LinearPoolAllocator,
    control_storage: AlignedStorage,
    control_alloc: LinearPoolAllocator,
    command_alignment: usize,
    control_alignment: usize,
}

impl CommandBufferArena {
    #[verifier::type_invariant]
    spec fn wf(self) -> bool {
        &&& self.command_alloc.spec_capacity() == self.pool.spec_size()
        &&& self.control_alloc.spec_capacity() == self.control_storage.spec_size()
        &&& self.control_storage.spec_alignment() == self.control_alignment
        &&& is_power_of_two(self.control_alignment)
    }

    pub closed spec fn spec_pool(self) -> OwnedMemoryPool {
        self.pool
    }

    pub closed spec fn spec_command_alloc(self) -> LinearPoolAllocator {
        self.command_alloc
    }

    pub closed spec fn spec_control_alloc(self) -> LinearPoolAllocator {
        self.control_alloc
    }

    pub closed spec fn spec_control_storage_addr(self) -> usize {
        self.control_storage.spec_addr()
    }

    pub closed spec fn spec_control_storage_size(self) -> usize {
        self.control_storage.spec_size()
    }

    pub closed spec fn spec_control_storage_alignment(self) -> usize {
        self.control_storage.spec_alignment()
    }

    pub closed spec fn spec_command_alignment(self) -> usize {
        self.command_alignment
    }

    pub closed spec fn spec_control_alignment(self) -> usize {
        self.control_alignment
    }

    /// Builds an arena from the outcome of creating its pool and its control
    /// storage; the pool's error, if any, comes first.
    pub fn new(
        pool: Result<OwnedMemoryPool, MemoryPoolError>,
        control_storage: Result<AlignedStorage, MemoryPoolError>,
        command_alignment: usize,
        control_alignment: usize,
    ) -> (r: Result<Self, MemoryPoolError>)
        requires
            control_storage matches Ok(s) ==> s.spec_alignment() == control_alignment,
        ensures
            match pool {
                Err(e) => r == Err::<Self, MemoryPoolError>(e),
                Ok(p) => match control_storage {
                    Err(e) => r == Err::<Self, MemoryPoolError>(e),
                    Ok(s) => r matches Ok(a) && {
                        &&& a.spec_pool() == p
                        &&& a.spec_command_alloc().spec_capacity() == p.spec_size()
                        &&& a.spec_command_alloc().spec_used() == 0
                        &&& a.spec_control_alloc().spec_capacity() == s.spec_size()
                        &&& a.spec_control_alloc().spec_used() == 0
                        &&& a.spec_control_storage_addr() == s.spec_addr()
                        &&& a.spec_control_storage_size() == s.spec_size()
                        &&& a.spec_control_storage_alignment() == control_alignment
                        &&& is_power_of_two(control_alignment)
                        &&& a.spec_command_alignment() == command_alignment
                        &&& a.spec_control_alignment() == control_alignment
                    },
                },
            },
    {
        let pool = match pool {
            Ok(p) => p,
            Err(e) => return Err(e),
        };
        let control_storage = match control_storage {
            Ok(s) => s,
            Err(e) => return Err(e),
        };
        let command_alloc = LinearPoolAllocator::new(pool.size());
        let control_alloc = LinearPoolAllocator::new(control_storage.size());
        proof {
            use_type_invariant(&control_storage);
        }
        Ok(CommandBufferArena {
            pool,
            command_alloc,
            control_storage,
            control_alloc,
            command_alignment,
            control_alignment,
        })
    }

    pub fn pool(&self) -> (p: &OwnedMemoryPool)
        ensures
            *p == self.spec_pool(),
    {
        &self.pool
    }

    /// Finalizes the arena's pool; returns whether the driver must be asked to
    /// finalize it now.
    pub fn finalize_pool(&mut self) -> (must_finalize: bool)
        ensures
            must_finalize == !old(self).spec_pool().spec_finalized(),
            final(self).spec_pool().spec_finalized(),
            final(self).spec_pool().spec_size() == old(self).spec_pool().spec_size(),
            final(self).spec_pool().spec_pool_addr() == old(self).spec_pool().spec_pool_addr(),
            final(self).spec_command_alloc() == old(self).spec_command_alloc(),
            final(self).spec_control_alloc() == old(self).spec_control_alloc(),
    {
        proof {
            use_type_invariant(&*self);
        }
        self.pool.finalize()
    }

    pub fn command_alignment(&self) -> (a: usize)
        ensures
            a == self.spec_command_alignment(),
    {
        self.command_alignment
    }

    /// The control memory's alignment: the one its storage was made with, a power of two.
    pub fn control_alignment(&self) -> (a: usize)
        ensures
            a == self.spec_control_alignment(),
            a == self.spec_control_storage_alignment(),
            is_power_of_two(a),
    {
        proof {
            use_type_invariant(self);
        }
        self.control_alignment
    }

    /// Makes both ranges available again.
    pub fn reset(&mut self)
        ensures
            final(self).spec_command_alloc().spec_used() == 0,
            final(self).spec_control_alloc().spec_used() == 0,
            final(self).spec_command_alloc().spec_capacity() == old(
                self,
            ).spec_command_alloc().spec_capacity(),
            final(self).spec_control_alloc().spec_capacity() == old(
                self,
            ).spec_control_alloc().spec_capacity(),
            final(self).spec_pool() == old(self).spec_pool(),
            final(self).spec_control_storage_addr() == old(self).spec_control_storage_addr(),
            final(self).spec_command_alignment() == old(self).spec_command_alignment(),
            final(self).spec_control_alignment() == old(self).spec_control_alignment(),
    {
        proof {
            use_type_invariant(&*self);
        }
        self.command_alloc.reset();
        self.control_alloc.reset();
    }

    /// Takes command memory and then control memory for one command buffer.
    ///
    /// When the command memory is taken but the control memory does not fit,
    /// the command memory stays taken and the arena reports `ArenaExhausted`.
    pub fn allocate_backing(&mut self, command_size: usize, control_size: usize) -> (r: Result<
        CommandBufferBacking,
        MemoryPoolError,
    >)
        requires
            alloc_in_range(
                old(self).spec_command_alloc().spec_used(),
                command_size,
                old(self).spec_command_alignment(),
            ),
            alloc_in_range(
                old(self).spec_control_alloc().spec_used(),
                control_size,
                old(self).spec_control_alignment(),
            ),
        ensures
            ({
                let cmd_used = old(self).spec_command_alloc().spec_used();
                let cmd_cap = old(self).spec_command_alloc().spec_capacity();
                let ctl_used = old(self).spec_control_alloc().spec_used();
                let ctl_cap = old(self).spec_control_alloc().spec_capacity();
                let ca = old(self).spec_command_alignment();
                let ta = old(self).spec_control_alignment();
                let cmd_fits = alloc_fits(cmd_used, cmd_cap, command_size, ca);
                let ctl_fits = alloc_fits(ctl_used, ctl_cap, control_size, ta);
                &&& r is Ok <==> (cmd_fits && ctl_fits)
                &&& (r is Err ==> r == Err::<CommandBufferBacking, MemoryPoolError>(
                    MemoryPoolError::ArenaExhausted,
                ))
                &&& final(self).spec_command_alloc().spec_used() == (if cmd_fits {
                    (alloc_offset(cmd_used, ca) + command_size) as nat
                } else {
                    cmd_used
                })
                &&& final(self).spec_control_alloc().spec_used() == (if cmd_fits && ctl_fits {
                    (alloc_offset(ctl_used, ta) + control_size) as nat
                } else {
                    ctl_used
                })
                &&& (r matches Ok(b) ==> {
                    &&& b.command_offset == alloc_offset(cmd_used, ca)
                    &&& b.command_size == command_size
                    &&& b.control_offset == alloc_offset(ctl_used, ta)
                    &&& b.control_size == control_size
                    &&& b.command_offset + b.command_size <= cmd_cap
                    &&& b.control_offset + b.control_size <= ctl_cap
                })
            }),
            final(self).spec_command_alloc().spec_capacity() == old(
                self,
            ).spec_command_alloc().spec_capacity(),
            final(self).spec_control_alloc().spec_capacity() == old(
                self,
            ).spec_control_alloc().spec_capacity(),
            final(self).spec_pool() == old(self).spec_pool(),
            final(self).spec_control_storage_addr() == old(self).spec_control_storage_addr(),
            final(self).spec_control_storage_size() == old(self).spec_control_storage_size(),
            final(self).spec_command_alignment() == old(self).spec_command_alignment(),
            final(self).spec_control_alignment() == old(self).spec_control_alignment(),
    {
        proof {
            use_type_invariant(&*self);
        }
        let cmd = match self.command_alloc.allocate(command_size, self.command_alignment) {
            Some(a) => a,
            None => return Err(MemoryPoolError::ArenaExhausted),
        };
        let ctl = match self.control_alloc.allocate(control_size, self.control_alignment) {
            Some(a) => a,
            None => return Err(MemoryPoolError::ArenaExhausted),
        };
        Ok(
            CommandBufferBacking {
                command_offset: cmd.offset,
                command_size: cmd.size,
                control_offset: ctl.offset,
                control_size: ctl.size,
            },
        )
    }

    /// Host address of the byte at `offset` in the control storage.
    pub fn control_ptr_at(&self, offset: usize) -> (p: usize)
        requires
            offset <= self.spec_control_storage_size(),
            self.spec_control_storage_addr() + offset <= usize::MAX,
        ensures
            p == self.spec_control_storage_addr() + offset,
    {
        self.control_storage.as_mut_ptr() + offset
    }
}

/// The memory a command buffer must be given before each recording.
#[derive(Copy, Clone, Debug, PartialEq, Eq, Structural)]
pub struct RecordingMemory {
    pub pool_addr: usize,
    pub command_offset: usize,
    pub command_size: usize,
    pub control_addr: usize,
    pub control_size: usize,
}

/// An NVN command buffer wired to memory taken from a [`CommandBufferArena`].
pub struct OwnedCommandBuffer {
    raw_addr: usize,
    backing: CommandBufferBacking,
    finalized: bool,
}

impl OwnedCommandBuffer {
    pub closed spec fn spec_raw_addr(self) -> usize {
        self.raw_addr
    }

    pub closed spec fn spec_backing(self) -> CommandBufferBacking {
        self.backing
    }

    pub closed spec fn spec_finalized(self) -> bool {
        self.finalized
    }

    /// Completes a command buffer whose backing was taken from an arena once the
    /// driver has been asked to initialize it.
    pub fn new(backing: CommandBufferBacking, raw_addr: usize, initialized: bool) -> (r: Result<
        Self,
        MemoryPoolError,
    >)
        ensures
            !initialized ==> r == Err::<Self, MemoryPoolError>(
                MemoryPoolError::CommandBufferInitFailed,
            ),
            initialized ==> (r matches Ok(c) && c.spec_backing() == backing && c.spec_raw_addr()
                == raw_addr && !c.spec_finalized()),
    {
        if !initialized {
            return Err(MemoryPoolError::CommandBufferInitFailed);
        }
        Ok(OwnedCommandBuffer { raw_addr, backing, finalized: false })
    }

    pub fn as_raw_ptr(&self) -> (p: usize)
        ensures
            p == self.spec_raw_addr(),
    {
        self.raw_addr
    }

    pub fn backing(&self) -> (b: CommandBufferBacking)
        ensures
            b == self.spec_backing(),
    {
        self.backing
    }

    /// The command memory (in the arena's pool) and the control memory (in the
    /// arena's storage) to hand the driver again before each recording.
    pub fn rebind_recording_memory(&self, arena: &CommandBufferArena) -> (m: RecordingMemory)
        requires
            self.spec_backing().control_offset + self.spec_backing().control_size
                <= arena.spec_control_storage_size(),
            arena.spec_control_storage_addr() + arena.spec_control_storage_size() <= usize::MAX,
        ensures
            m.pool_addr == arena.spec_pool().spec_pool_addr(),
            m.command_offset == self.spec_backing().command_offset,
            m.command_size == self.spec_backing().command_size,
            m.control_addr == arena.spec_control_storage_addr()
                + self.spec_backing().control_offset,
            m.control_size == self.spec_backing().control_size,
    {
        RecordingMemory {
            pool_addr: arena.pool().as_raw_pool_ptr(),
            command_offset: self.backing.command_offset,
            command_size: self.backing.command_size,
            control_addr: arena.control_ptr_at(self.backing.control_offset),
            control_size: self.backing.control_size,
        }
    }

    /// Marks the command buffer finalized; returns whether the driver must be
    /// asked to finalize it now (only the first time).
    pub fn finalize(&mut self) -> (must_finalize: bool)
        ensures
            must_finalize == !old(self).spec_finalized(),
            final(self).spec_finalized(),
            final(self).spec_raw_addr() == old(self).spec_raw_addr(),
            final(self).spec_backing() == old(self).spec_backing(),
    {
        if self.finalized {
            return false;
        }
        self.finalized = true;
        true
    }
}

} // verus!
