use nsuite::ngpu::bootstrap::{
    append_submit_handle, cached_active_window_texture, cached_device, cached_window_texture,
    caller_text_offset, cstr_eq_ascii, ensure_device_initialized, finish_device_initialization,
    log_queue_error, memory_access_name, nvn_bootstrap_loader_action, on_present_texture,
    on_texture_acquired, patch_queue_builder_flags, plan_queue_memory_patch, push_unique_pair,
    push_unique_usize, queue_error_name, queue_memory_ptr_is_owned, release_owned_queue_memory,
    set_queue_present_submit_provider, set_queue_submit_append_provider, should_append_submit,
    take_log_slot, tracked_submit_queues_snapshot, try_initialize_from_cached_device,
    DeviceInitStep, DriverProbe, LoaderAction, Providers, QueueErrorReport, QueueOwnedMemory,
    QueueTracking, MAX_TRACKED_QUEUES,
};
use nsuite::ngpu::resources::runtime::{
    cache_window_textures, device_ready, driver_api_versions, supports_draw_texture, RuntimeState,
};

#[test]
fn push_unique_refuses_zero_repeats_and_full() {
    let mut list = [0usize; 3];
    let mut len = 0usize;
    assert!(!push_unique_usize(&mut list, &mut len, 0));
    assert!(push_unique_usize(&mut list, &mut len, 5));
    assert!(!push_unique_usize(&mut list, &mut len, 5));
    assert!(push_unique_usize(&mut list, &mut len, 6));
    assert!(push_unique_usize(&mut list, &mut len, 7));
    assert!(!push_unique_usize(&mut list, &mut len, 8));
    assert_eq!((list, len), ([5, 6, 7], 3));

    let mut pairs = [(0usize, 0usize); 2];
    let mut plen = 0usize;
    assert!(!push_unique_pair(&mut pairs, &mut plen, (1, 0)));
    assert!(!push_unique_pair(&mut pairs, &mut plen, (0, 1)));
    assert!(push_unique_pair(&mut pairs, &mut plen, (1, 2)));
    assert!(!push_unique_pair(&mut pairs, &mut plen, (1, 2)));
    assert!(push_unique_pair(&mut pairs, &mut plen, (2, 1)));
    assert!(!push_unique_pair(&mut pairs, &mut plen, (3, 3)));
    assert_eq!(plen, 2);
}

#[test]
fn queue_tracking_and_snapshot() {
    let mut t = QueueTracking::new();
    assert_eq!(t.record_submit(0x10, 0x99), (true, true, true));
    assert_eq!(t.record_submit(0x10, 0x98), (false, true, true));
    assert_eq!(t.record_submit(0x20, 0x99), (true, false, true));
    assert_eq!(t.record_submit(0x20, 0x99), (false, false, false));
    assert!(t.record_init_queue(0x10));
    assert!(!t.record_init_queue(0x10));
    assert_eq!(t.init_queue_count(), 1);
    assert!(t.record_finalize_queue(0x30));
    assert_eq!(t.finalize_queue_count(), 1);
    let mut out = [1usize; MAX_TRACKED_QUEUES];
    assert_eq!(tracked_submit_queues_snapshot(&t, &mut out), 2);
    assert_eq!(out[0], 0x10);
    assert_eq!(out[1], 0x20);
    assert!(out[2..].iter().all(|&v| v == 0));
}

#[test]
fn cstr_comparison() {
    let name: &[u8] = b"nvnDeviceGetProcAddress\0";
    assert!(cstr_eq_ascii(Some(&b"nvnDeviceGetProcAddress\0"[..]), name));
    assert!(!cstr_eq_ascii(Some(&b"nvnDeviceGetProc\0"[..]), name));
    assert!(!cstr_eq_ascii(Some(&b"nvnDeviceGetProcAddressX\0"[..]), name));
    assert!(!cstr_eq_ascii(None, name));
    // Bytes past the terminator are not looked at.
    assert!(cstr_eq_ascii(Some(&b"ab\0zz"[..]), b"ab\0"));
    // A name without a terminator never matches.
    assert!(!cstr_eq_ascii(Some(&b"ab\0"[..]), &b"ab"[..]));
}

#[test]
fn loader_actions() {
    let get_proc: &[u8] = b"nvnDeviceGetProcAddress\0";
    let init: &[u8] = b"nvnDeviceInitialize\0";
    let a = |resolved, sym: Option<&[u8]>, hooked| nvn_bootstrap_loader_action(resolved, sym, get_proc, init, hooked);
    assert_eq!(a(false, Some(get_proc), false), LoaderAction::PassThrough);
    assert_eq!(a(true, Some(get_proc), false), LoaderAction::CacheGetProc);
    assert_eq!(a(true, Some(init), false), LoaderAction::HookDeviceInit);
    assert_eq!(a(true, Some(init), true), LoaderAction::PassThrough);
    assert_eq!(a(true, Some(&b"nvnQueueInitialize\0"[..]), false), LoaderAction::PassThrough);
    assert_eq!(a(true, None, false), LoaderAction::PassThrough);
}

#[test]
fn queue_memory_patching() {
    assert_eq!(plan_queue_memory_patch(false, 0x5000, 0x1000, false), None);
    assert_eq!(plan_queue_memory_patch(true, 0x5000, 0, false), None);
    assert_eq!(plan_queue_memory_patch(true, 0x1000, 0x2000, false), None);
    assert_eq!(plan_queue_memory_patch(true, 0x5001, 0x1000, false), Some(0x6000));
    assert_eq!(plan_queue_memory_patch(true, 0x10, 0x20, true), Some(0x1000));
    assert_eq!(plan_queue_memory_patch(true, 0x1000, 0x3000, true), Some(0x3000));
    assert_eq!(plan_queue_memory_patch(true, usize::MAX - 0x1000, 0x1000, false), None);
    assert_eq!(plan_queue_memory_patch(true, usize::MAX, 0x1000, false), None);
    assert_eq!(plan_queue_memory_patch(true, 0x10, usize::MAX, true), None);

    let mut owned = vec![
        QueueOwnedMemory { queue_addr: 1, ptr: 0x100, size: 0x1000 },
        QueueOwnedMemory { queue_addr: 2, ptr: 0x200, size: 0x1000 },
        QueueOwnedMemory { queue_addr: 1, ptr: 0x300, size: 0x2000 },
    ];
    assert!(queue_memory_ptr_is_owned(&owned, 0x300));
    assert!(!queue_memory_ptr_is_owned(&owned, 0x400));
    assert!(!queue_memory_ptr_is_owned(&owned, 0));
    let released = release_owned_queue_memory(&mut owned, 1);
    assert_eq!(released.iter().map(|e| e.ptr).collect::<Vec<_>>(), vec![0x100, 0x300]);
    assert_eq!(owned, vec![QueueOwnedMemory { queue_addr: 2, ptr: 0x200, size: 0x1000 }]);
    assert!(release_owned_queue_memory(&mut owned, 9).is_empty());
    assert_eq!(owned.len(), 1);
}

#[test]
fn flags_offsets_and_handles() {
    assert_eq!(patch_queue_builder_flags(0x7), (0x6, true));
    assert_eq!(patch_queue_builder_flags(0x6), (0x6, false));
    assert_eq!(patch_queue_builder_flags(-1), (-2, true));
    let mut count = 0usize;
    assert!(take_log_slot(&mut count, 2));
    assert!(take_log_slot(&mut count, 2));
    assert!(!take_log_slot(&mut count, 2));
    assert_eq!(count, 2);
    assert_eq!(caller_text_offset(0x1500, 0x1000), 0x500);
    assert_eq!(caller_text_offset(0x500, 0x1000), 0);
    assert!(should_append_submit(5, 0, true));
    assert!(!should_append_submit(0, 3, true));
    assert!(!should_append_submit(5, -1, true));
    assert!(!should_append_submit(5, 3, false));
    assert_eq!(append_submit_handle(&[1, 2, 3], 9), vec![1, 2, 3, 9]);
    assert_eq!(append_submit_handle(&[], 9), vec![9]);
}

#[test]
fn queue_error_reporting() {
    assert_eq!(queue_error_name(0), "NO_ERROR");
    assert_eq!(queue_error_name(2), "GPU_ERROR_MMU_FAULT");
    assert_eq!(queue_error_name(5), "GPU_ERROR_TIMEOUT");
    assert_eq!(queue_error_name(42), "GPU_ERROR_UNRECOGNIZED");
    assert_eq!(memory_access_name(1), "write");
    assert_eq!(memory_access_name(0), "read");
    let mut count = 0usize;
    assert_eq!(log_queue_error(&mut count, 2, 0), QueueErrorReport::Silent);
    assert_eq!(count, 0);
    assert_eq!(log_queue_error(&mut count, 2, 2), QueueErrorReport::MmuFault);
    assert_eq!(log_queue_error(&mut count, 2, 3), QueueErrorReport::Words);
    assert_eq!(log_queue_error(&mut count, 2, 2), QueueErrorReport::Silent);
    assert_eq!(count, 2);
}

#[test]
fn device_initialization_flow() {
    let mut rt = RuntimeState::new();
    assert_eq!(try_initialize_from_cached_device(&mut rt), DeviceInitStep::Finished(false));
    assert_eq!(ensure_device_initialized(&mut rt, 0), DeviceInitStep::Finished(false));
    assert_eq!(ensure_device_initialized(&mut rt, 0x1000), DeviceInitStep::Probe);
    assert_eq!(cached_device(&rt), Some(0x1000));
    // A second caller while the first one probes sees the device not ready.
    assert_eq!(ensure_device_initialized(&mut rt, 0x1000), DeviceInitStep::Finished(false));
    let probe = DriverProbe { api_major: 55, api_minor: 13, draw_texture: 1 };
    assert!(finish_device_initialization(&mut rt, Some(probe)));
    assert!(device_ready(&rt));
    assert_eq!(driver_api_versions(&rt), Some((55, 13)));
    assert_eq!(supports_draw_texture(&rt), Some(true));
    assert_eq!(ensure_device_initialized(&mut rt, 0x1000), DeviceInitStep::Finished(true));
    assert_eq!(try_initialize_from_cached_device(&mut rt), DeviceInitStep::Finished(true));
    // A new device starts over; without nvnDeviceGetInteger it stays not ready.
    assert_eq!(ensure_device_initialized(&mut rt, 0x2000), DeviceInitStep::Probe);
    assert!(!finish_device_initialization(&mut rt, None));
    assert!(!device_ready(&rt));
    assert_eq!(driver_api_versions(&rt), None);
    // Negative probe results are not recorded.
    assert_eq!(ensure_device_initialized(&mut rt, 0x2000), DeviceInitStep::Probe);
    let probe = DriverProbe { api_major: -1, api_minor: 2, draw_texture: -1 };
    assert!(finish_device_initialization(&mut rt, Some(probe)));
    assert_eq!(driver_api_versions(&rt), None);
    assert_eq!(supports_draw_texture(&rt), None);
}

#[test]
fn presents_and_acquires() {
    let mut rt = RuntimeState::new();
    cache_window_textures(&mut rt, Some(&[0xa0, 0xb0]), 2);
    on_present_texture(&mut rt, 0x40, 0x50);
    on_texture_acquired(&mut rt, 1, Some(1));
    assert_eq!(cached_active_window_texture(&rt), None);
    on_texture_acquired(&mut rt, 0, None);
    assert_eq!(cached_active_window_texture(&rt), None);
    on_texture_acquired(&mut rt, 0, Some(1));
    assert_eq!(cached_active_window_texture(&rt), Some(0xb0));
    assert_eq!(cached_window_texture(&rt, 0), Some(0xa0));
}

#[test]
fn providers_are_replaced() {
    let mut p: Providers<u8, u16> = Providers { submit_append: None, present_submit: None };
    set_queue_submit_append_provider(&mut p, Some(3));
    set_queue_present_submit_provider(&mut p, Some(4));
    assert_eq!((p.submit_append, p.present_submit), (Some(3), Some(4)));
    set_queue_submit_append_provider(&mut p, None);
    assert_eq!((p.submit_append, p.present_submit), (None, Some(4)));
}
