use nsuite::ngpu::resources::runtime::{
    active_window_texture_index, active_window_texture_ptr, begin_device_init, bootstrap_active,
    cache_device_ptr, cache_driver_api_versions, cache_present_queue_ptr, cache_queue_ptr,
    cache_supports_draw_texture, cache_window_ptr, cache_window_textures, device_get_proc_addr,
    device_ptr, device_ready, driver_api_versions, end_device_init, first_window_texture_ptr,
    present_queue_ptr, queue_ptr, reset, set_active_window_texture_index, set_bootstrap_active,
    set_device_get_proc_addr, supports_draw_texture, window_ptr, window_texture_ptr_at,
    window_texture_ptrs_snapshot, RuntimeState, MAX_WINDOW_TEXTURES,
};

#[test]
fn pointers_read_back() {
    let mut s = RuntimeState::new();
    assert_eq!(device_ptr(&s), None);
    assert!(!cache_device_ptr(&mut s, 0));
    assert_eq!(device_ptr(&s), None);
    assert!(cache_device_ptr(&mut s, 0x1000));
    assert_eq!(device_ptr(&s), Some(0x1000));
    assert!(!cache_device_ptr(&mut s, 0x1000));
    assert!(cache_window_ptr(&mut s, 0x2000));
    assert!(!cache_window_ptr(&mut s, 0x2000));
    assert!(!cache_window_ptr(&mut s, 0));
    assert_eq!(window_ptr(&s), Some(0x2000));
    assert!(cache_queue_ptr(&mut s, 0x3000));
    assert_eq!(queue_ptr(&s), Some(0x3000));
    assert!(cache_present_queue_ptr(&mut s, 0x4000));
    assert_eq!(present_queue_ptr(&s), Some(0x4000));
    set_device_get_proc_addr(&mut s, 0x5000);
    set_device_get_proc_addr(&mut s, 0);
    assert_eq!(device_get_proc_addr(&s), Some(0x5000));
    set_bootstrap_active(&mut s, true);
    assert!(bootstrap_active(&s));
}

#[test]
fn new_device_forgets_driver_facts() {
    let mut s = RuntimeState::new();
    cache_device_ptr(&mut s, 0x1000);
    assert!(begin_device_init(&mut s));
    end_device_init(&mut s, true);
    cache_driver_api_versions(&mut s, 55, 13);
    cache_supports_draw_texture(&mut s, 1);
    assert!(device_ready(&s));
    assert_eq!(driver_api_versions(&s), Some((55, 13)));
    assert_eq!(supports_draw_texture(&s), Some(true));
    // The same device again keeps everything.
    assert!(!cache_device_ptr(&mut s, 0x1000));
    assert!(device_ready(&s));
    // Another device forgets readiness and driver facts.
    assert!(cache_device_ptr(&mut s, 0x1100));
    assert!(!device_ready(&s));
    assert_eq!(driver_api_versions(&s), None);
    assert_eq!(supports_draw_texture(&s), None);
}

#[test]
fn device_init_is_claimed_once() {
    let mut s = RuntimeState::new();
    assert!(begin_device_init(&mut s));
    assert!(!begin_device_init(&mut s));
    end_device_init(&mut s, false);
    assert!(!device_ready(&s));
    assert!(begin_device_init(&mut s));
}

#[test]
fn tri_states_and_versions() {
    let mut s = RuntimeState::new();
    cache_supports_draw_texture(&mut s, 0);
    assert_eq!(supports_draw_texture(&s), Some(false));
    cache_supports_draw_texture(&mut s, -3);
    assert_eq!(supports_draw_texture(&s), None);
    cache_driver_api_versions(&mut s, 1, -1);
    assert_eq!(driver_api_versions(&s), None);
    cache_driver_api_versions(&mut s, 0, 0);
    assert_eq!(driver_api_versions(&s), Some((0, 0)));
}

#[test]
fn window_textures_are_cached_and_capped() {
    let mut s = RuntimeState::new();
    let tex: Vec<usize> = (1..=10).map(|i| i * 0x100).collect();
    cache_window_textures(&mut s, None, 3);
    assert_eq!(first_window_texture_ptr(&s), None);
    cache_window_textures(&mut s, Some(&tex), 0);
    assert_eq!(first_window_texture_ptr(&s), None);
    cache_window_textures(&mut s, Some(&tex), 10);
    let mut out = [7usize; MAX_WINDOW_TEXTURES];
    assert_eq!(window_texture_ptrs_snapshot(&s, &mut out), 8);
    assert_eq!(out, [0x100, 0x200, 0x300, 0x400, 0x500, 0x600, 0x700, 0x800]);
    assert_eq!(window_texture_ptr_at(&s, 7), Some(0x800));
    assert_eq!(window_texture_ptr_at(&s, 8), None);
    assert_eq!(window_texture_ptr_at(&s, -1), None);
    cache_window_textures(&mut s, Some(&[0x10, 0, 0x30]), 3);
    assert_eq!(window_texture_ptrs_snapshot(&s, &mut out), 3);
    assert_eq!(out, [0x10, 0, 0x30, 0, 0, 0, 0, 0]);
    assert_eq!(window_texture_ptr_at(&s, 1), None);
    assert_eq!(window_texture_ptr_at(&s, 3), None);
    assert_eq!(first_window_texture_ptr(&s), Some(0x10));
    assert_eq!(active_window_texture_index(&s), None);
    assert_eq!(active_window_texture_ptr(&s), None);
    set_active_window_texture_index(&mut s, 2);
    assert_eq!(active_window_texture_index(&s), Some(2));
    assert_eq!(active_window_texture_ptr(&s), Some(0x30));
    set_active_window_texture_index(&mut s, 5);
    assert_eq!(active_window_texture_ptr(&s), None);
}

#[test]
fn reset_forgets_everything() {
    let mut s = RuntimeState::new();
    cache_device_ptr(&mut s, 1);
    cache_window_ptr(&mut s, 2);
    cache_queue_ptr(&mut s, 3);
    cache_present_queue_ptr(&mut s, 4);
    set_device_get_proc_addr(&mut s, 5);
    set_bootstrap_active(&mut s, true);
    cache_window_textures(&mut s, Some(&[9, 9]), 2);
    set_active_window_texture_index(&mut s, 0);
    cache_driver_api_versions(&mut s, 1, 1);
    reset(&mut s);
    assert_eq!(device_ptr(&s), None);
    assert_eq!(window_ptr(&s), None);
    assert_eq!(queue_ptr(&s), None);
    assert_eq!(present_queue_ptr(&s), None);
    assert_eq!(device_get_proc_addr(&s), None);
    assert!(!bootstrap_active(&s));
    assert_eq!(first_window_texture_ptr(&s), None);
    assert_eq!(active_window_texture_index(&s), None);
    assert_eq!(driver_api_versions(&s), None);
    assert_eq!(supports_draw_texture(&s), None);
}

#[test]
fn cache_follows_call_history() {
    let mut s = RuntimeState::new();
    set_bootstrap_active(&mut s, true);
    cache_device_ptr(&mut s, 0x100);
    cache_queue_ptr(&mut s, 0x200);
    cache_present_queue_ptr(&mut s, 0x300);
    cache_window_ptr(&mut s, 0x400);
    cache_queue_ptr(&mut s, 0);
    set_device_get_proc_addr(&mut s, 0x500);
    set_device_get_proc_addr(&mut s, 0);
    assert!(begin_device_init(&mut s));
    end_device_init(&mut s, true);
    cache_device_ptr(&mut s, 0);
    cache_device_ptr(&mut s, 0x100);
    assert_eq!(device_ptr(&s), Some(0x100));
    assert_eq!(queue_ptr(&s), Some(0x200));
    assert_eq!(device_get_proc_addr(&s), Some(0x500));
    assert!(device_ready(&s));
    assert!(bootstrap_active(&s));
    cache_device_ptr(&mut s, 0x600);
    assert!(!device_ready(&s));
    assert_eq!(device_ptr(&s), Some(0x600));
    reset(&mut s);
    assert_eq!(device_ptr(&s), None);
    assert_eq!(queue_ptr(&s), None);
    assert_eq!(device_get_proc_addr(&s), None);
    assert!(!bootstrap_active(&s));
    assert!(!device_ready(&s));
}
