use nsuite::ngpu::debug::dbg_draw::DrawList;
use nsuite::ngpu::debug::dbg_render::OverlayRenderState;
use nsuite::ngpu::debug::dbg_shaders::ShaderState;
use nsuite::ngpu::debug::DebugOverlay;
use nsuite::ngpu::{slot_address, GpuInit, TextBaseCache};

#[test]
fn draw_list_queue() {
    let mut d: DrawList<(f32, f32)> = DrawList::new();
    d.push_line((1.0, 2.0));
    d.push_line((3.0, 4.0));
    assert_eq!(d.len(), 2);
    assert_eq!(d.lines_snapshot(), vec![(1.0, 2.0), (3.0, 4.0)]);
    d.clear_draw_list();
    assert!(d.lines_snapshot().is_empty());
}

#[test]
fn overlay_provider_warns_once() {
    let mut r = OverlayRenderState::new();
    assert_eq!(r.overlay_submit_handle_provider(0), (0, false));
    assert_eq!(r.overlay_submit_handle_provider(3), (0, true));
    assert_eq!(r.overlay_submit_handle_provider(3), (0, false));
    r.set_overlay_submit_filter(0x1234);
    assert_eq!(r.overlay_submit_filter(), 0x1234);
    assert_eq!(r.overlay_target_queue(), None);
    r.set_overlay_target_queue(Some(0x99));
    assert_eq!(r.overlay_target_queue(), Some(0x99));
    r.set_overlay_target_queue(None);
    assert_eq!(r.overlay_target_queue(), None);
}

#[test]
fn flags() {
    let mut s = ShaderState::new();
    assert!(!s.ensure_shaders_ready());
    s.mark_shaders_ready(true);
    assert!(s.ensure_shaders_ready());
    let mut o = DebugOverlay::new();
    assert!(!o.enabled());
    o.set_enabled(true);
    assert!(o.enabled());
    let mut g = GpuInit::new();
    assert!(!g.is_initialized());
    assert!(g.initialize());
    assert!(g.is_initialized());
    assert!(!g.initialize());
    let mut g = GpuInit::new();
    assert!(g.initialize_from_slots());
    assert!(g.is_initialized());
    assert!(!g.initialize_from_slots());
    assert!(!g.initialize());
}

#[test]
fn text_base_resolved_once() {
    let mut c = TextBaseCache::new();
    assert_eq!(c.cached(), None);
    assert_eq!(c.text_base(0), 0);
    assert_eq!(c.cached(), None);
    assert_eq!(c.text_base(0x8000_0000), 0x8000_0000);
    assert_eq!(c.cached(), Some(0x8000_0000));
    assert_eq!(c.text_base(0x1234), 0x8000_0000);
    assert_eq!(slot_address(0x8000_0000, 0x40), Some(0x8000_0040));
    assert_eq!(slot_address(usize::MAX, 1), None);
}
