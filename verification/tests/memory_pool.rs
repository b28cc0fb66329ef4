use nsuite::nmem::memory_pool::{
    check_storage_request, AlignedStorage, CommandBufferArena, CommandBufferBacking,
    LinearPoolAllocator, MemoryPoolError, OwnedCommandBuffer, OwnedMemoryPool, PoolAllocation,
};
use nsuite::nmem::number_line::RangeUsize;

#[test]
fn linear_allocator_aligns_and_advances() {
    let mut a = LinearPoolAllocator::new(256);
    assert_eq!(a.used(), 0);
    assert_eq!(a.remaining(), 256);
    assert_eq!(a.allocate(10, 1), Some(PoolAllocation { offset: 0, size: 10 }));
    assert_eq!(a.used(), 10);
    assert_eq!(a.allocate(16, 16), Some(PoolAllocation { offset: 16, size: 16 }));
    assert_eq!(a.used(), 32);
    assert_eq!(a.allocate(1, 64), Some(PoolAllocation { offset: 64, size: 1 }));
    assert_eq!(a.used(), 65);
    assert_eq!(a.remaining(), 191);
}

#[test]
fn linear_allocator_refuses_bad_requests_without_change() {
    let mut a = LinearPoolAllocator::new(64);
    assert_eq!(a.allocate(0, 8), None);
    assert_eq!(a.allocate(8, 0), None);
    assert_eq!(a.allocate(8, 3), None);
    assert_eq!(a.allocate(8, 12), None);
    assert_eq!(a.used(), 0);
    assert_eq!(a.allocate(60, 4), Some(PoolAllocation { offset: 0, size: 60 }));
    // 60 rounds up to 64, so nothing more fits.
    assert_eq!(a.allocate(1, 8), None);
    assert_eq!(a.used(), 60);
    assert_eq!(a.allocate(4, 4), Some(PoolAllocation { offset: 60, size: 4 }));
    assert_eq!(a.remaining(), 0);
    assert_eq!(a.allocate(1, 1), None);
}

#[test]
fn linear_allocator_exact_fit_and_overflow() {
    let mut a = LinearPoolAllocator::new(usize::MAX);
    assert_eq!(a.allocate(usize::MAX - 1, 1), Some(PoolAllocation { offset: 0, size: usize::MAX - 1 }));
    // The next aligned offset plus size would overflow: refused.
    assert_eq!(a.allocate(2, 1), None);
    assert_eq!(a.used(), usize::MAX - 1);
}

#[test]
fn linear_allocator_reset_restores_capacity() {
    let mut a = LinearPoolAllocator::new(128);
    a.allocate(100, 4).unwrap();
    a.reset();
    assert_eq!(a.used(), 0);
    assert_eq!(a.remaining(), 128);
    assert_eq!(a.allocate(128, 128), Some(PoolAllocation { offset: 0, size: 128 }));
}

#[test]
fn successive_allocations_do_not_overlap() {
    let mut a = LinearPoolAllocator::new(4096);
    let mut prev_end = 0usize;
    for (size, align) in [(3usize, 1usize), (7, 8), (1, 256), (300, 32), (5, 2)] {
        let p = a.allocate(size, align).unwrap();
        assert!(p.offset >= prev_end);
        assert_eq!(p.offset % align, 0);
        assert!(p.offset < prev_end + align);
        prev_end = p.offset + p.size;
        assert_eq!(a.used(), prev_end);
    }
}

#[test]
fn storage_request_errors_in_order() {
    assert_eq!(check_storage_request(0, 3), Err(MemoryPoolError::InvalidSize));
    assert_eq!(check_storage_request(16, 0), Err(MemoryPoolError::InvalidAlignment));
    assert_eq!(check_storage_request(16, 24), Err(MemoryPoolError::InvalidAlignment));
    assert_eq!(check_storage_request(usize::MAX - 2, 8), Err(MemoryPoolError::AllocLayout));
    assert_eq!(check_storage_request(isize::MAX as usize, 1), Ok(()));
    assert_eq!(check_storage_request(4096, 4096), Ok(()));
}

#[test]
fn aligned_storage_records_or_fails() {
    assert!(matches!(AlignedStorage::new(64, 16, 0), Err(MemoryPoolError::AllocFailed)));
    assert!(matches!(AlignedStorage::new(0, 16, 0x1000), Err(MemoryPoolError::InvalidSize)));
    let s = AlignedStorage::new(64, 16, 0x1000).unwrap();
    assert_eq!(s.as_mut_ptr(), 0x1000);
    assert_eq!(s.size(), 64);
}

#[test]
fn owned_memory_pool_checks_and_finalizes_once() {
    assert_eq!(OwnedMemoryPool::check_request(0, 0, 0), Err(MemoryPoolError::DeviceNull));
    assert_eq!(OwnedMemoryPool::check_request(0x10, 0, 0), Err(MemoryPoolError::InvalidSize));
    assert_eq!(OwnedMemoryPool::check_request(0x10, 4096, 4096), Ok(()));
    let st = AlignedStorage::new(4096, 4096, 0x8000).unwrap();
    assert!(matches!(OwnedMemoryPool::new(0, st, 1, 2, 3, true), Err(MemoryPoolError::DeviceNull)));
    let st = AlignedStorage::new(4096, 4096, 0x8000).unwrap();
    assert!(matches!(OwnedMemoryPool::new(7, st, 1, 2, 3, false), Err(MemoryPoolError::InitializeFailed)));
    let st = AlignedStorage::new(4096, 4096, 0x8000).unwrap();
    let mut pool = OwnedMemoryPool::new(7, st, 5, 0x200, 0x300, true).unwrap();
    assert_eq!(pool.size(), 4096);
    assert_eq!(pool.flags(), 5);
    assert_eq!(pool.device_ptr(), 7);
    assert_eq!(pool.as_raw_builder_ptr(), 0x200);
    assert_eq!(pool.as_raw_pool_ptr(), 0x300);
    assert_eq!(pool.storage_ptr(), 0x8000);
    assert!(pool.finalize());
    assert!(!pool.finalize());
}

fn arena(command: usize, control: usize, ca: usize, ta: usize) -> CommandBufferArena {
    let st = AlignedStorage::new(command, 4096, 0x10000).unwrap();
    let pool = OwnedMemoryPool::new(1, st, 0, 0x20, 0x30, true);
    let ctl = AlignedStorage::new(control, ta, 0x40000);
    CommandBufferArena::new(pool, ctl, ca, ta).unwrap()
}

#[test]
fn arena_new_reports_first_error() {
    let ctl = AlignedStorage::new(64, 8, 0);
    let r = CommandBufferArena::new(Err(MemoryPoolError::DeviceNull), ctl, 8, 8);
    assert!(matches!(r, Err(MemoryPoolError::DeviceNull)));
    let st = AlignedStorage::new(64, 8, 0x100).unwrap();
    let pool = OwnedMemoryPool::new(1, st, 0, 0, 0, true);
    let r = CommandBufferArena::new(pool, AlignedStorage::new(64, 8, 0), 8, 8);
    assert!(matches!(r, Err(MemoryPoolError::AllocFailed)));
}

#[test]
fn arena_allocates_backing_and_reports_exhaustion() {
    let mut a = arena(1024, 256, 256, 8);
    assert_eq!(a.command_alignment(), 256);
    assert_eq!(a.control_alignment(), 8);
    let b = a.allocate_backing(100, 20).unwrap();
    assert_eq!(b, CommandBufferBacking { command_offset: 0, command_size: 100, control_offset: 0, control_size: 20 });
    let b = a.allocate_backing(100, 20).unwrap();
    assert_eq!(b, CommandBufferBacking { command_offset: 256, command_size: 100, control_offset: 24, control_size: 20 });
    // Command memory runs out.
    assert_eq!(a.allocate_backing(1000, 1), Err(MemoryPoolError::ArenaExhausted));
    // Command memory fits but control memory does not: the command part stays taken.
    assert_eq!(a.allocate_backing(10, 1000), Err(MemoryPoolError::ArenaExhausted));
    let b = a.allocate_backing(10, 10).unwrap();
    assert_eq!(b.command_offset, 768);
    assert_eq!(b.control_offset, 48);
    a.reset();
    let b = a.allocate_backing(10, 10).unwrap();
    assert_eq!(b.command_offset, 0);
    assert_eq!(b.control_offset, 0);
    assert!(a.finalize_pool());
    assert!(!a.finalize_pool());
}

#[test]
fn command_buffer_wires_recording_memory() {
    let mut a = arena(1024, 256, 256, 8);
    let backing = a.allocate_backing(64, 32).unwrap();
    assert!(matches!(OwnedCommandBuffer::new(backing, 0x99, false), Err(MemoryPoolError::CommandBufferInitFailed)));
    let backing = a.allocate_backing(64, 32).unwrap();
    let mut cb = OwnedCommandBuffer::new(backing, 0x99, true).unwrap();
    assert_eq!(cb.as_raw_ptr(), 0x99);
    assert_eq!(cb.backing(), backing);
    let m = cb.rebind_recording_memory(&a);
    assert_eq!(m.pool_addr, 0x30);
    assert_eq!(m.command_offset, 256);
    assert_eq!(m.command_size, 64);
    assert_eq!(m.control_addr, 0x40000 + 32);
    assert_eq!(m.control_size, 32);
    assert_eq!(a.control_ptr_at(8), 0x40008);
    assert!(cb.finalize());
    assert!(!cb.finalize());
}

#[test]
fn range_len_and_emptiness() {
    assert_eq!(RangeUsize { start: 3, end: 10 }.len(), 7);
    assert_eq!(RangeUsize { start: 10, end: 3 }.len(), 0);
    assert!(RangeUsize { start: 5, end: 5 }.is_empty());
    assert!(RangeUsize { start: 6, end: 5 }.is_empty());
    assert!(!RangeUsize { start: 4, end: 5 }.is_empty());
}

#[test]
fn pool_used_grows_until_reset() {
    let mut a = LinearPoolAllocator::new(64);
    let mut last = a.used();
    for (size, align) in [(10usize, 8usize), (100, 8), (5, 3), (0, 4), (20, 16), (64, 1)] {
        a.allocate(size, align);
        assert!(a.used() >= last);
        assert!(a.used() <= 64);
        last = a.used();
    }
    assert_eq!(last, 36);
    a.reset();
    assert_eq!(a.used(), 0);
    assert!(a.allocate(64, 1).is_some());
    assert_eq!(a.remaining(), 0);
}

#[test]
fn arena_control_alignment_is_storage_alignment() {
    let pool = OwnedMemoryPool::new(0x10, AlignedStorage::new(0x1000, 0x1000, 0x4000).unwrap(), 0, 0x20, 0x30, true);
    let storage = AlignedStorage::new(0x100, 16, 0x8000).unwrap();
    let arena = CommandBufferArena::new(pool, Ok(storage), 0x100, 16).unwrap();
    assert_eq!(arena.control_alignment(), 16);
}
