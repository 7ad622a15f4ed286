use lalapad_gen2_rmk::iqs9151::arith::{div_trunc_i32, elapsed_ms};
use lalapad_gen2_rmk::iqs9151::buttons::{TrackpadButton, TrackpadSide};
use lalapad_gen2_rmk::iqs9151::device::{
    FrameOutcome, InitOutcome, Iqs9151MotionOutput, TrackpadRuntime,
};
use lalapad_gen2_rmk::iqs9151::frame::{
    CoordinateFrame, FingerPosition, I2C_ADDRESS, INFO_SHOW_RESET, PRODUCT_NUMBER,
    SYS_CTRL_ALP_RE_ATI, TP_FINGER1_CONFIDENCE, TP_MOVEMENT_DETECTED,
};
use lalapad_gen2_rmk::iqs9151::inertia::{
    scroll_inertia_config, ScrollInertiaSeed, ScrollInertiaState, ScrollMotionHistory,
};
use lalapad_gen2_rmk::iqs9151::motion::{
    TrackpadDynamicScaleAction, TrackpadDynamicScaleEvent, TrackpadDynamicScaleGroup,
    TrackpadMotionEvent, TrackpadPinchReport, TrackpadScrollDelta,
};
use lalapad_gen2_rmk::iqs9151::output::{
    custom_event_action, dynamic_scale_axis, mouse_report_for_motion, pinch_report_steps,
    split_motion_payload, trackpad_dynamic_scale_reset, trackpad_dynamic_scale_step,
    trackpad_dynamic_scale_x10, CustomEventAction, DynamicScaleState, Iqs9151ControllerTarget,
    MouseOutputState, MouseReportFields, DEFAULT_DYNAMIC_SCALE_X10, MAX_DYNAMIC_SCALE_X10,
    MIN_DYNAMIC_SCALE_X10,
};
use lalapad_gen2_rmk::iqs9151::sensor::{
    ati_complete, ati_poll_step, check_product_number, merge_bits_u16, reset_shown,
    show_reset_poll_step, write_chunks, PollStep,
    write_slice_frame, write_u16_frame, write_u8_frame, Iqs9151, Iqs9151Error,
    Iqs9151KeyboardController, Iqs9151ReadyPin, ReadyPinPolarity, WriteChunk,
};
use lalapad_gen2_rmk::rmk::{Event, KeyboardEvent};

fn one_finger_motion(x: i16, y: i16) -> CoordinateFrame {
    CoordinateFrame {
        relative_x: x,
        relative_y: y,
        trackpad_flags: TP_MOVEMENT_DETECTED | TP_FINGER1_CONFIDENCE | 1,
        finger1: FingerPosition { x: 100, y: 200 },
        ..CoordinateFrame::default()
    }
}

#[test]
fn dynamic_scale_axis_carries_tenths() {
    let mut remainder = 0;
    assert_eq!(dynamic_scale_axis(3, 15, &mut remainder), 4);
    assert_eq!(remainder, 5);
    assert_eq!(dynamic_scale_axis(3, 15, &mut remainder), 5);
    assert_eq!(remainder, 0);
    assert_eq!(dynamic_scale_axis(-7, 10, &mut remainder), -7);
    assert_eq!(remainder, 0);
}

#[test]
fn dynamic_scale_steps_clamp_and_reset() {
    let mut state = DynamicScaleState::new();
    assert_eq!(trackpad_dynamic_scale_x10(&state, TrackpadDynamicScaleGroup::Cursor), 10);
    for _ in 0..100 {
        trackpad_dynamic_scale_step(&mut state, TrackpadDynamicScaleGroup::Cursor, 1);
    }
    assert_eq!(state.cursor_scale_x10, MAX_DYNAMIC_SCALE_X10);
    assert_eq!(state.scroll_scale_x10, DEFAULT_DYNAMIC_SCALE_X10);
    for _ in 0..100 {
        trackpad_dynamic_scale_step(&mut state, TrackpadDynamicScaleGroup::All, -1);
    }
    assert_eq!(state.cursor_scale_x10, MIN_DYNAMIC_SCALE_X10);
    assert_eq!(state.scroll_scale_x10, MIN_DYNAMIC_SCALE_X10);
    assert_eq!(trackpad_dynamic_scale_x10(&state, TrackpadDynamicScaleGroup::All), 10);
    trackpad_dynamic_scale_reset(&mut state, TrackpadDynamicScaleGroup::Scroll);
    assert_eq!(state.scroll_scale_x10, DEFAULT_DYNAMIC_SCALE_X10);
    assert_eq!(state.cursor_scale_x10, MIN_DYNAMIC_SCALE_X10);
}

#[test]
fn dynamic_scale_increment_is_undone_by_decrement() {
    let mut state = DynamicScaleState::new();
    state.left_cursor_x = 7;
    TrackpadDynamicScaleEvent::new(TrackpadDynamicScaleGroup::Scroll, TrackpadDynamicScaleAction::Increment)
        .apply(&mut state);
    assert_eq!(state.scroll_scale_x10, 11);
    assert_eq!(state.left_cursor_x, 0);
    TrackpadDynamicScaleEvent::new(TrackpadDynamicScaleGroup::Scroll, TrackpadDynamicScaleAction::Decrement)
        .apply(&mut state);
    assert_eq!(state, DynamicScaleState::new());
}

#[test]
fn mouse_report_merges_both_sides_buttons_and_scales_motion() {
    let mut state = MouseOutputState::new();
    assert_eq!(
        mouse_report_for_motion(&mut state, TrackpadMotionEvent::button_state(TrackpadSide::Left, 1)),
        Some(MouseReportFields { buttons: 1, x: 0, y: 0, wheel: 0, pan: 0 })
    );
    assert_eq!(
        mouse_report_for_motion(&mut state, TrackpadMotionEvent::button_state(TrackpadSide::Right, 2)),
        Some(MouseReportFields { buttons: 3, x: 0, y: 0, wheel: 0, pan: 0 })
    );
    trackpad_dynamic_scale_step(&mut state.scale, TrackpadDynamicScaleGroup::Cursor, 10);
    assert_eq!(
        mouse_report_for_motion(&mut state, TrackpadMotionEvent::cursor(TrackpadSide::Left, 10, -3)),
        Some(MouseReportFields { buttons: 3, x: 20, y: -6, wheel: 0, pan: 0 })
    );
    assert_eq!(
        mouse_report_for_motion(&mut state, TrackpadMotionEvent::cursor(TrackpadSide::Left, 0, 0)),
        None
    );
}

#[test]
fn split_payload_skips_empty_motion_and_encodes_capped_motion() {
    assert_eq!(
        split_motion_payload(TrackpadMotionEvent::cursor(TrackpadSide::Left, 0, 0)),
        None
    );
    let payload = split_motion_payload(TrackpadMotionEvent::cursor(TrackpadSide::Left, 100, 0))
        .expect("moving motion is forwarded");
    assert_eq!(
        TrackpadMotionEvent::decode(payload),
        Some(TrackpadMotionEvent::cursor(TrackpadSide::Left, 36, 0))
    );
}

#[test]
fn pinch_report_steps_press_move_release() {
    let motion = TrackpadMotionEvent::scroll(TrackpadSide::Right, 1, 0);
    let steps = pinch_report_steps(TrackpadPinchReport::new(TrackpadSide::Right, true, true, motion));
    assert_eq!(steps.press, Some(KeyboardEvent::key(6, 11, true)));
    assert_eq!(steps.motion, Some(motion));
    assert_eq!(steps.release, Some(KeyboardEvent::key(6, 11, false)));
    let quiet = pinch_report_steps(TrackpadPinchReport::new(
        TrackpadSide::Left,
        false,
        false,
        TrackpadMotionEvent::scroll(TrackpadSide::Left, 0, 0),
    ));
    assert_eq!((quiet.press, quiet.motion, quiet.release), (None, None, None));
}

#[test]
fn custom_events_dispatch_by_kind_and_target() {
    let mut scale = DynamicScaleState::new();
    let motion = TrackpadMotionEvent::cursor(TrackpadSide::Left, 3, 4);
    let pinch = TrackpadPinchReport::new(
        TrackpadSide::Left,
        true,
        false,
        TrackpadMotionEvent::scroll(TrackpadSide::Left, -1, 0),
    );
    assert_eq!(
        custom_event_action(&mut scale, motion.encode(), Iqs9151ControllerTarget::HidReport),
        CustomEventAction::HidMotion(motion)
    );
    assert_eq!(
        custom_event_action(&mut scale, pinch.encode(), Iqs9151ControllerTarget::HidReport),
        CustomEventAction::HidPinch(pinch)
    );
    assert_eq!(
        custom_event_action(&mut scale, pinch.encode(), Iqs9151ControllerTarget::SplitEvent),
        CustomEventAction::SplitForward(pinch.encode())
    );
    assert_eq!(
        custom_event_action(&mut scale, motion.encode(), Iqs9151ControllerTarget::SplitEvent),
        CustomEventAction::SplitMotion(motion)
    );
    assert_eq!(
        custom_event_action(&mut scale, [0; 16], Iqs9151ControllerTarget::HidReport),
        CustomEventAction::Ignore
    );
    let mut scale_payload = lalapad_gen2_rmk::iqs9151::motion::custom_event_payload(2);
    scale_payload[5] = 0;
    scale_payload[6] = 1;
    assert_eq!(
        custom_event_action(&mut scale, scale_payload, Iqs9151ControllerTarget::SplitEvent),
        CustomEventAction::ScaleApplied
    );
    assert_eq!(scale.cursor_scale_x10, 11);
}

#[test]
fn sensor_write_frames_are_little_endian() {
    assert_eq!(write_u16_frame(0x11bc, 0x0240), [0xbc, 0x11, 0x40, 0x02]);
    assert_eq!(write_u8_frame(0x11ee, 20), [0xee, 0x11, 20]);
    assert_eq!(write_slice_frame(0x1218, &[1, 2, 3]), vec![0x18, 0x12, 1, 2, 3]);
    assert_eq!(merge_bits_u16(0xffff, 0x0007, 0x0000), 0xfff8);
    assert_eq!(merge_bits_u16(0x0100, 0x0060, 0x0060), 0x0160);
}

#[test]
fn product_number_check_reports_unexpected_value() {
    assert_eq!(check_product_number::<()>(PRODUCT_NUMBER), Ok(()));
    assert_eq!(
        check_product_number::<()>(0x1234),
        Err(Iqs9151Error::UnexpectedProductNumber(0x1234))
    );
}

#[test]
fn reset_and_ati_flags() {
    assert!(reset_shown(INFO_SHOW_RESET));
    assert!(!reset_shown(0));
    assert!(ati_complete(0x0100));
    assert!(!ati_complete(SYS_CTRL_ALP_RE_ATI));
}

#[test]
fn configuration_blocks_are_written_in_thirty_byte_chunks() {
    let chunks = write_chunks(0x1178, 126);
    assert_eq!(chunks.len(), 5);
    assert_eq!(chunks[0], WriteChunk { register: 0x1178, start: 0, end: 30 });
    assert_eq!(chunks[4], WriteChunk { register: 0x1178 + 120, start: 120, end: 126 });
    assert!(write_chunks(0x1000, 0).is_empty());
}

#[test]
fn sensor_handles_keep_their_parts() {
    let sensor = Iqs9151::new(5u8);
    assert_eq!(sensor.address, I2C_ADDRESS);
    assert_eq!(Iqs9151::with_address(5u8, 0x44).address, 0x44);
    assert_eq!(sensor.release(), 5);
    let ready = Iqs9151ReadyPin::active_low(9u8);
    assert_eq!(ready.polarity, ReadyPinPolarity::ActiveLow);
    assert_eq!(Iqs9151ReadyPin::active_high(9u8).polarity, ReadyPinPolarity::ActiveHigh);
    assert_eq!(ready.release(), 9);
    let controller = Iqs9151KeyboardController::new_peripheral(3u8);
    assert_eq!(controller.target, Iqs9151ControllerTarget::SplitEvent);
    assert_eq!(Iqs9151KeyboardController::new_central(3u8).target, Iqs9151ControllerTarget::HidReport);
    assert_eq!(controller.release(), 3);
}

#[test]
fn runtime_hands_cursor_motion_to_the_keyboard() {
    let mut rt = TrackpadRuntime::new(TrackpadSide::Left);
    let mut sends = Vec::new();
    let outcome = rt.frame_read(one_finger_motion(9, -6), 1000, &mut sends);
    let expected = TrackpadMotionEvent::cursor(TrackpadSide::Left, 9, -6).with_button_state(0);
    assert_eq!(outcome, FrameOutcome::Emit(Event::Custom(expected.encode())));
    assert!(sends.is_empty());
    assert_eq!(rt.last_finger_count, 1);
}

#[test]
fn runtime_sends_motion_for_hid_output_and_queues_failures() {
    let mut rt = TrackpadRuntime::new(TrackpadSide::Right);
    rt.set_motion_output(Iqs9151MotionOutput::HidReport);
    let mut sends = Vec::new();
    assert_eq!(rt.frame_read(one_finger_motion(9, 0), 1000, &mut sends), FrameOutcome::ReadAgain);
    let expected = TrackpadMotionEvent::cursor(TrackpadSide::Right, 9, 0).with_button_state(0);
    assert_eq!(sends, vec![expected]);
    rt.queue_pending_motion(expected);
    assert_eq!(rt.pending_motion_to_send(), Some(expected));
    rt.pending_motion_sent();
    assert_eq!(rt.pending_motion_to_send(), None);
    rt.set_motion_interval_ms(5);
    sends.clear();
    assert_eq!(
        rt.frame_read(one_finger_motion(9, 0), 1010, &mut sends),
        FrameOutcome::WaitMotionInterval
    );
}

#[test]
fn runtime_reinitialises_after_too_many_read_errors() {
    let mut rt = TrackpadRuntime::new(TrackpadSide::Left);
    rt.init_succeeded();
    let mut sends = Vec::new();
    for i in 0..7 {
        rt.frame_read_failed(1000 + i, &mut sends);
        assert!(rt.health.initialized);
    }
    rt.frame_read_failed(1100, &mut sends);
    assert!(!rt.health.initialized);
    assert_eq!(rt.health.read_error_count, 0);
}

#[test]
fn runtime_degrades_after_repeated_init_failures() {
    let mut rt = TrackpadRuntime::new(TrackpadSide::Left);
    let mut sends = Vec::new();
    assert_eq!(rt.init_failed(5000, &mut sends), InitOutcome::Sleep);
    assert_eq!(rt.init_failed(5100, &mut sends), InitOutcome::Sleep);
    assert_eq!(rt.init_failed(5200, &mut sends), InitOutcome::Continue);
    assert!(rt.health.initialized);
    assert!(rt.health.degraded_mode);
    assert_eq!(rt.health.diagnostic_motion_last_ms, 5000);
    assert_eq!(rt.health.diagnostic_motion_sign, -1);
}

#[test]
fn runtime_sensor_reset_releases_held_mouse_buttons() {
    let mut rt = TrackpadRuntime::new(TrackpadSide::Left);
    rt.set_motion_output(Iqs9151MotionOutput::SplitEvent);
    rt.init_succeeded();
    rt.buttons.pointer_buttons = 1;
    let mut sends = Vec::new();
    let reset = CoordinateFrame { info_flags: INFO_SHOW_RESET, ..CoordinateFrame::default() };
    assert_eq!(rt.frame_read(reset, 1000, &mut sends), FrameOutcome::ReadAgain);
    assert_eq!(sends, vec![TrackpadMotionEvent::button_state(TrackpadSide::Left, 0)]);
    assert_eq!(rt.buttons.pointer_buttons, 0);
    assert!(!rt.health.initialized);
}

#[test]
fn runtime_turns_a_tap_into_a_held_then_released_left_button() {
    let mut rt = TrackpadRuntime::new(TrackpadSide::Left);
    rt.set_motion_output(Iqs9151MotionOutput::HidReport);
    let mut sends = Vec::new();
    let touch = CoordinateFrame {
        trackpad_flags: TP_FINGER1_CONFIDENCE | 1,
        finger1: FingerPosition { x: 100, y: 200 },
        ..CoordinateFrame::default()
    };
    assert_eq!(rt.frame_read(touch, 1000, &mut sends), FrameOutcome::Sleep);
    assert_eq!(rt.frame_read(CoordinateFrame::default(), 1060, &mut sends), FrameOutcome::ReadAgain);
    assert_eq!(sends, vec![TrackpadMotionEvent::button_state(TrackpadSide::Left, 1)]);
    assert_eq!(rt.buttons.pointer_buttons, 1);
    sends.clear();
    assert_eq!(rt.frame_read(CoordinateFrame::default(), 1300, &mut sends), FrameOutcome::ReadAgain);
    assert_eq!(sends, vec![TrackpadMotionEvent::button_state(TrackpadSide::Left, 0)]);
}

#[test]
fn runtime_queues_virtual_key_edges_for_gestures() {
    let mut rt = TrackpadRuntime::new(TrackpadSide::Right);
    assert_eq!(rt.next_queued_event(), None);
    rt.buttons.pending_pinch_report = Some(TrackpadPinchReport::new(
        TrackpadSide::Right,
        false,
        true,
        TrackpadMotionEvent::scroll(TrackpadSide::Right, 0, 0),
    ));
    assert!(matches!(rt.next_queued_event(), Some(Event::Custom(_))));
    assert_eq!(rt.next_queued_event(), None);
    rt.buttons.pending_click = Some(
        lalapad_gen2_rmk::iqs9151::buttons::TrackpadClickEvents::new(TrackpadSide::Right, TrackpadButton::GestureUp),
    );
    assert_eq!(rt.next_queued_event(), Some(Event::Key(KeyboardEvent::key(6, 9, true))));
    assert_eq!(rt.next_queued_event(), Some(Event::Key(KeyboardEvent::key(6, 9, false))));
    assert_eq!(rt.next_queued_event(), None);
}

#[test]
fn inertia_velocity_never_grows_and_the_fling_stops() {
    let mut fling = ScrollInertiaState::new();
    fling.start_with(ScrollInertiaSeed { vx_fp: 0, vy_fp: 6000 }, 0, scroll_inertia_config());
    assert!(fling.active);
    let mut previous = fling.vy_fp;
    let mut now = 0u32;
    let mut steps = 0;
    while fling.active {
        now += 10;
        fling.step(now);
        assert!(fling.vy_fp.abs() <= previous.abs());
        assert!(fling.accum_y_fp >= 0 && fling.accum_y_fp < 256);
        previous = fling.vy_fp;
        steps += 1;
        assert!(steps <= 70);
    }
}

#[test]
fn history_keeps_the_twelve_newest_samples() {
    let mut history = ScrollMotionHistory::new();
    history.push(TrackpadScrollDelta { x: 0, y: 0 }, 5);
    assert_eq!(history.count, 0);
    for i in 0..20 {
        history.push(TrackpadScrollDelta { x: 1, y: i as i16 }, 1000 + i);
    }
    assert_eq!(history.count, 12);
    let newest = history.samples[(history.head + 11) % 12];
    assert_eq!((newest.y, newest.ms), (19, 1019));
}

#[test]
fn slow_or_stale_history_does_not_seed() {
    let mut history = ScrollMotionHistory::new();
    history.push(TrackpadScrollDelta { x: 0, y: 60 }, 1000);
    history.push(TrackpadScrollDelta { x: 0, y: 60 }, 1010);
    assert!(history.seed(1100).is_none());
    let mut slow = ScrollMotionHistory::new();
    slow.push(TrackpadScrollDelta { x: 0, y: 1 }, 1000);
    slow.push(TrackpadScrollDelta { x: 0, y: 1 }, 1050);
    assert!(slow.seed(1055).is_none());
}

#[test]
fn wrapping_clock_and_truncating_division() {
    assert_eq!(elapsed_ms(5, u32::MAX - 4), 10);
    assert_eq!(div_trunc_i32(7, -2), -3);
    assert_eq!(div_trunc_i32(-7, 2), -3);
    assert_eq!(div_trunc_i32(i32::MIN, 2), -1073741824);
}

#[test]
fn a_single_recent_scroll_sample_seeds_a_fling() {
    let mut two = ScrollMotionHistory::new();
    two.push(TrackpadScrollDelta { x: 0, y: 60 }, 1000);
    two.push(TrackpadScrollDelta { x: 0, y: 60 }, 1010);
    let seed = two.seed(1020).expect("two agreeing samples seed a fling");
    assert_eq!(seed.vx_fp, 0);
    assert!(seed.vy_fp > 0);
    let mut one = ScrollMotionHistory::new();
    one.push(TrackpadScrollDelta { x: 0, y: 60 }, 1010);
    let seed = one.seed(1020).expect("one recent sample seeds a fling");
    assert_eq!(seed.vx_fp, 0);
    assert!(seed.vy_fp > 0);
}

#[test]
fn scroll_fling_tuning_matches_the_release_gate() {
    let config = scroll_inertia_config();
    assert_eq!((config.decay_num, config.decay_den), (980, 1000));
    assert_eq!(config.min_samples, 1);
    assert_eq!(config.min_avg_speed, 4);
    assert_eq!((config.interval_ms, config.recent_window_ms, config.stale_gap_ms), (10, 60, 35));
    let mut fling = ScrollInertiaState::new();
    fling.start_with(ScrollInertiaSeed { vx_fp: 0, vy_fp: 1000 }, 0, config);
    fling.step(10);
    assert_eq!(fling.vy_fp, 980);
}

#[test]
fn sensor_waits_poll_until_done_or_deadline() {
    assert_eq!(show_reset_poll_step(INFO_SHOW_RESET, 5000, 3000), PollStep::Done);
    assert_eq!(show_reset_poll_step(0, 2990, 3000), PollStep::PollAgain);
    assert_eq!(show_reset_poll_step(0, 3000, 3000), PollStep::TimedOut);
    assert_eq!(ati_poll_step(0, 10, 1000), PollStep::Done);
    assert_eq!(ati_poll_step(SYS_CTRL_ALP_RE_ATI, 999, 1000), PollStep::PollAgain);
    assert_eq!(ati_poll_step(SYS_CTRL_ALP_RE_ATI, 1000, 1000), PollStep::TimedOut);
}
