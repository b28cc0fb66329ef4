use nsuite::ninput::gamepad::{
    buttons_all_held, buttons_any_held, check_inputs, detect_kind, disable_hid_initialize,
    empty_npad_state, ensure_hid_initialized, is_active, modifier_l_r_z_is_held, primary_state_reads,
    probe_input, read_primary_state, request_hid_initialize, Controller, ControllerKind,
    HidInitState, InputProbe, NpadRead, NpadStyle, UnifiedNpadState, KEY_L, KEY_R, KEY_X, KEY_ZL,
    KEY_ZR, NPAD_CONNECTED, NPAD_ID_HANDHELD, STYLE_FULL_KEY, STYLE_GC, STYLE_HANDHELD,
    STYLE_JOY_LEFT,
};
use nsuite::ninput::inp_frame::{
    for_each_matching_in, ControllerInput, ControllerPairFrames, InputFrame, InputFrameStore,
};

fn state(flags: u32, buttons: u64) -> UnifiedNpadState {
    UnifiedNpadState { flags, buttons, ..empty_npad_state() }
}

fn frame(b0: u64, c0: bool, b1: u64, c1: bool) -> InputFrame {
    InputFrame {
        controllers: [
            ControllerInput { buttons: b0, connected: c0 },
            ControllerInput { buttons: b1, connected: c1 },
        ],
    }
}

#[test]
fn read_plan_order() {
    let r = |style, id| NpadRead { style, id };
    assert_eq!(
        primary_state_reads(0, STYLE_GC | STYLE_HANDHELD),
        vec![
            r(NpadStyle::Gc, 0),
            r(NpadStyle::FullKey, 0),
            r(NpadStyle::JoyDual, 0),
            r(NpadStyle::Handheld, NPAD_ID_HANDHELD),
            r(NpadStyle::Handheld, 0),
        ]
    );
    assert_eq!(
        primary_state_reads(3, STYLE_FULL_KEY | STYLE_JOY_LEFT),
        vec![
            r(NpadStyle::FullKey, 3),
            r(NpadStyle::JoyLeft, 3),
            r(NpadStyle::FullKey, 3),
            r(NpadStyle::JoyDual, 3),
        ]
    );
}

#[test]
fn primary_state_is_first_active() {
    let idle = state(0, 0);
    let held = state(0, KEY_X);
    let connected = state(NPAD_CONNECTED, 0);
    assert_eq!(read_primary_state(&[idle, held, connected]), held);
    assert_eq!(read_primary_state(&[connected, held]), connected);
    assert_eq!(read_primary_state(&[idle, idle]), empty_npad_state());
    assert_eq!(read_primary_state(&[]), empty_npad_state());
    assert!(is_active(held) && is_active(connected) && !is_active(idle));
}

#[test]
fn kinds_and_probes() {
    let on = state(NPAD_CONNECTED, 0);
    let off = state(0, 0);
    assert_eq!(detect_kind(STYLE_GC, on), ControllerKind::GcController);
    assert_eq!(detect_kind(STYLE_GC, off), ControllerKind::NoController);
    assert_eq!(detect_kind(STYLE_GC | STYLE_HANDHELD, off), ControllerKind::Handheld);
    assert_eq!(detect_kind(STYLE_JOY_LEFT, off), ControllerKind::ProController);
    assert_eq!(detect_kind(0, state(0, KEY_X)), ControllerKind::ProController);
    assert_eq!(detect_kind(0, off), ControllerKind::NoController);
    let p = probe_input(2, STYLE_FULL_KEY, on);
    assert_eq!(p, InputProbe { id: 2, kind: ControllerKind::ProController, style_flags: STYLE_FULL_KEY, state: on });
    let d = InputProbe::default();
    assert_eq!((d.id, d.kind, d.style_flags), (0, ControllerKind::NoController, 0));
    let mut c = Controller::new(2);
    assert_eq!(c.kind, ControllerKind::NoController);
    c.update(probe_input(2, STYLE_FULL_KEY, state(NPAD_CONNECTED, KEY_L)));
    assert_eq!((c.id, c.kind, c.buttons), (2, ControllerKind::ProController, KEY_L));
}

#[test]
fn button_masks() {
    assert!(modifier_l_r_z_is_held(KEY_L | KEY_R | KEY_ZL));
    assert!(modifier_l_r_z_is_held(KEY_L | KEY_R | KEY_ZR | KEY_X));
    assert!(!modifier_l_r_z_is_held(KEY_L | KEY_ZL | KEY_ZR));
    assert!(buttons_all_held(KEY_L | KEY_R, KEY_L));
    assert!(!buttons_all_held(KEY_L, KEY_L | KEY_R));
    assert!(buttons_any_held(KEY_L, KEY_L | KEY_R));
    assert!(!buttons_any_held(KEY_X, KEY_L | KEY_R));
}

#[test]
fn counting_connected_controllers() {
    let on = state(NPAD_CONNECTED, 0);
    let off = state(0, 0);
    assert_eq!(check_inputs(&[on, on, off, on]), 2);
    assert_eq!(check_inputs(&[off, on]), 0);
    assert_eq!(check_inputs(&[on; 10]), 8);
    assert_eq!(check_inputs(&[]), 0);
}

#[test]
fn hid_initialization_once() {
    let mut h = HidInitState::new();
    assert!(ensure_hid_initialized(&mut h));
    assert!(!ensure_hid_initialized(&mut h));
    let mut h = HidInitState::new();
    disable_hid_initialize(&mut h);
    assert!(!ensure_hid_initialized(&mut h));
    request_hid_initialize(&mut h);
    assert!(ensure_hid_initialized(&mut h));
}

#[test]
fn pair_frames_keep_the_last_three() {
    let mut p = ControllerPairFrames::new(1);
    assert!(p.is_empty());
    assert!(p.latest().is_none());
    for i in 1..=5u64 {
        p.advance_next_index(frame(i, true, 0, false));
        assert_eq!(p.latest().unwrap().controllers[0].buttons, i);
    }
    assert_eq!(p.len(), 3);
    assert_eq!(p.pop_oldest().unwrap().controllers[0].buttons, 3);
    assert_eq!(p.len(), 2);
    p.clear();
    assert!(p.is_empty());
    assert!(p.pop_oldest().is_none());
    assert_eq!(p.controller_id(0), 2);
    assert_eq!(p.controller_id(1), 3);
}

#[test]
fn pair_matching() {
    let mut p = ControllerPairFrames::new(2);
    assert_eq!(p.first_controller_with_all(KEY_X), None);
    p.advance_next_index(frame(KEY_X | KEY_L, false, KEY_X, true));
    assert_eq!(p.first_controller_with_all(KEY_X), Some(5));
    assert_eq!(p.first_controller_with_all(KEY_X | KEY_L), None);
    assert_eq!(p.first_controller_with_any(KEY_L | KEY_X), Some(5));
    p.advance_next_index(frame(KEY_X | KEY_L, true, KEY_X, true));
    assert_eq!(p.first_controller_with_all(KEY_X | KEY_L), Some(4));
    assert_eq!(p.first_controller_with_any(KEY_R), None);
}

#[test]
fn store_captures_pairs() {
    let mut s = InputFrameStore::new();
    assert_eq!(s.first_controller_with_any(KEY_X), None);
    let inputs = [
        ControllerInput { buttons: 0, connected: true },
        ControllerInput { buttons: KEY_X, connected: true },
        ControllerInput { buttons: KEY_L, connected: true },
        ControllerInput { buttons: 0, connected: false },
    ];
    assert_eq!(s.capture_next(3, &inputs), 2);
    assert_eq!(s.tracked_pair_count(), 2);
    assert_eq!(s.allocated_pair_count(), 2);
    assert_eq!(s.first_controller_with_any(KEY_X), Some(1));
    assert_eq!(s.first_controller_with_all(KEY_L), Some(2));
    assert_eq!(s.pairs()[1].pair_index, 1);
    let matches = for_each_matching_in(s.pairs(), 0);
    assert_eq!(matches, vec![(0, 0), (1, KEY_X), (2, KEY_L)]);
    assert_eq!(s.capture_next(1, &inputs), 1);
    assert_eq!(s.allocated_pair_count(), 1);
    assert_eq!(s.pairs()[0].len(), 2);
    assert_eq!(s.first_controller_with_all(KEY_L), None);
    assert_eq!(s.capture_next(0, &[]), 0);
    assert_eq!(s.first_controller_with_any(KEY_X), None);
    s.capture_next(8, &[ControllerInput { buttons: KEY_R, connected: true }; 8]);
    assert_eq!(s.allocated_pair_count(), 4);
    s.free_memory();
    assert_eq!(s.allocated_pair_count(), 0);
    assert_eq!(s.tracked_pair_count(), 0);
    s.free();
}

#[test]
fn latest_frame_changed_in_place() {
    let mut p = ControllerPairFrames::new(0);
    assert!(p.latest_mut().is_none());
    p.advance_next_index(frame(KEY_X, true, 0, false));
    p.advance_next_index(frame(KEY_L, true, 0, false));
    p.latest_mut().unwrap().controllers[1] = ControllerInput { buttons: KEY_R, connected: true };
    assert_eq!(p.len(), 2);
    assert_eq!(p.latest().unwrap().controllers[1].buttons, KEY_R);
    assert_eq!(p.first_controller_with_any(KEY_R), Some(1));
    assert_eq!(p.pop_oldest().unwrap().controllers[0].buttons, KEY_X);
}

#[test]
fn store_pairs_changed_in_place() {
    let mut s = InputFrameStore::new();
    let inputs = [
        ControllerInput { buttons: 0, connected: true },
        ControllerInput { buttons: 0, connected: true },
        ControllerInput { buttons: 0, connected: true },
        ControllerInput { buttons: 0, connected: false },
    ];
    s.capture_next(3, &inputs);
    s.capture_next(1, &inputs);
    assert_eq!(s.tracked_pair_count(), 1);
    assert_eq!(s.allocated_pair_count(), 1);
    assert_eq!(s.active_pairs_mut().len(), 1);
    s.active_pairs_mut()[0].advance_next_index(frame(KEY_ZL, true, 0, false));
    assert_eq!(s.first_controller_with_all(KEY_ZL), Some(0));
    s.pairs_mut()[0].clear();
    assert_eq!(s.pairs()[0].len(), 0);
    assert_eq!(s.first_controller_with_all(KEY_ZL), None);
}
