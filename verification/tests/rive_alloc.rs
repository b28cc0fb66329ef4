use nsuite::nmem::rive_alloc::{
    align_up, place_payload, plan_realloc, plan_rive_alloc, realloc_copy_len, record_alloc,
    record_free, record_realloc, snapshot_rive_allocator_stats, switch_alloc_route,
    track_live_bytes, AllocRoute, ReallocStep, RiveAllocPlan, RiveAllocatorStats,
};

fn stats() -> RiveAllocatorStats {
    RiveAllocatorStats { alloc_calls: 0, realloc_calls: 0, free_calls: 0, live_bytes: 0, peak_bytes: 0 }
}

#[test]
fn align_up_exact_values() {
    assert_eq!(align_up(0, 8), 0);
    assert_eq!(align_up(1, 8), 8);
    assert_eq!(align_up(8, 8), 8);
    assert_eq!(align_up(4097, 4096), 8192);
    assert_eq!(align_up(13, 1), 13);
}

#[test]
fn live_bytes_and_peak() {
    let mut s = stats();
    track_live_bytes(&mut s, 100);
    assert_eq!((s.live_bytes, s.peak_bytes), (100, 100));
    track_live_bytes(&mut s, -40);
    assert_eq!((s.live_bytes, s.peak_bytes), (60, 100));
    track_live_bytes(&mut s, 20);
    assert_eq!((s.live_bytes, s.peak_bytes), (80, 100));
    track_live_bytes(&mut s, 50);
    assert_eq!((s.live_bytes, s.peak_bytes), (130, 130));
    track_live_bytes(&mut s, -1000);
    assert_eq!((s.live_bytes, s.peak_bytes), (0, 130));
}

#[test]
fn counting_calls() {
    let mut s = stats();
    for i in 1..=9usize {
        let (call, log) = record_alloc(&mut s, 10);
        assert_eq!(call, i);
        assert_eq!(log, i <= 8);
    }
    assert_eq!(s.live_bytes, 90);
    record_free(&mut s, 10);
    record_realloc(&mut s);
    let snap = snapshot_rive_allocator_stats(&s);
    assert_eq!(snap, RiveAllocatorStats { alloc_calls: 9, realloc_calls: 1, free_calls: 1, live_bytes: 80, peak_bytes: 90 });
}

#[test]
fn alloc_then_free_restores_live_bytes() {
    let mut s = stats();
    track_live_bytes(&mut s, 7);
    record_alloc(&mut s, 1234);
    record_free(&mut s, 1234);
    assert_eq!(s.live_bytes, 7);
    assert_eq!(s.peak_bytes, 1241);
}

#[test]
fn alloc_plans() {
    assert_eq!(plan_rive_alloc(0, 16, 8, 40, 8), None);
    assert_eq!(
        plan_rive_alloc(100, 16, 8, 40, 8),
        Some(RiveAllocPlan { requested_align: 16, alloc_size: 156, alloc_align: 16 })
    );
    assert_eq!(
        plan_rive_alloc(100, 1, 8, 40, 8),
        Some(RiveAllocPlan { requested_align: 8, alloc_size: 148, alloc_align: 8 })
    );
    assert_eq!(plan_rive_alloc(100, 24, 8, 40, 8), None);
    assert_eq!(plan_rive_alloc(usize::MAX - 20, 16, 8, 40, 8), None);
}

#[test]
fn payload_placement() {
    let p = place_payload(0x1000, 100, 40, 16);
    assert_eq!(p.payload_addr, 0x1030);
    assert_eq!(p.header_addr, 0x1008);
    let p = place_payload(0x1008, 100, 40, 64);
    assert_eq!(p.payload_addr, 0x1040);
    assert_eq!(p.header_addr, 0x1018);
    assert!(p.payload_addr + 100 <= 0x1008 + 100 + 64 + 40);
}

#[test]
fn routes_and_realloc_steps() {
    assert_eq!(switch_alloc_route(0, 8, 8), AllocRoute::Null);
    assert_eq!(switch_alloc_route(10, 8, 8), AllocRoute::Malloc);
    assert_eq!(switch_alloc_route(10, 16, 8), AllocRoute::AlignedAlloc);
    assert_eq!(plan_realloc(false, 0, 0), ReallocStep::AllocateFresh);
    assert_eq!(plan_realloc(true, 0, 8), ReallocStep::FreeOnly);
    assert_eq!(plan_realloc(true, 10, 0), ReallocStep::Reject);
    assert_eq!(plan_realloc(true, 10, 12), ReallocStep::Reject);
    assert_eq!(plan_realloc(true, 10, 16), ReallocStep::Move);
    assert_eq!(realloc_copy_len(10, 20), 10);
    assert_eq!(realloc_copy_len(30, 20), 20);
}

#[test]
fn stats_grow_between_snapshots() {
    let mut s = stats();
    let first = snapshot_rive_allocator_stats(&s);
    record_alloc(&mut s, 100);
    record_alloc(&mut s, 50);
    record_free(&mut s, 100);
    record_realloc(&mut s);
    track_live_bytes(&mut s, 30);
    let second = snapshot_rive_allocator_stats(&s);
    assert!(second.alloc_calls >= first.alloc_calls);
    assert!(second.free_calls >= first.free_calls);
    assert!(second.realloc_calls >= first.realloc_calls);
    assert!(second.peak_bytes >= first.peak_bytes);
    assert_eq!((second.alloc_calls, second.free_calls, second.realloc_calls), (2, 1, 1));
    assert_eq!((second.live_bytes, second.peak_bytes), (80, 150));
    assert!(second.live_bytes <= second.peak_bytes);
}
