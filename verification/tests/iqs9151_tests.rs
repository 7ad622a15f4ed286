use lalapad_gen2_rmk::iqs9151::buttons::{
    trackpad_button_position, TrackpadButton, TrackpadButtonEvent, TrackpadButtonEvents,
    TrackpadButtonState, TrackpadClickEvents, TrackpadSide, VirtualKeyPosition,
};
use lalapad_gen2_rmk::iqs9151::frame::{
    cursor_motion_detected, CoordinateFrame, FingerPosition, COORD_BLOCK_LENGTH, INFO_SHOW_RESET,
    TP_FINGER1_CONFIDENCE, TP_FINGER2_CONFIDENCE, TP_MOVEMENT_DETECTED,
};
use lalapad_gen2_rmk::iqs9151::gesture::{TrackpadGestureEvent, TrackpadGestureRecognizer};
use lalapad_gen2_rmk::iqs9151::inertia::{
    cursor_inertia_config, ScrollInertiaState, ScrollMotionHistory,
};
use lalapad_gen2_rmk::iqs9151::motion::{
    custom_event_payload, fixed_point_to_i16_rounded, pinch_wheel_to_motion, smooth_scroll_axis,
    TrackpadAxisTransform, TrackpadDynamicScaleAction, TrackpadDynamicScaleEvent,
    TrackpadDynamicScaleGroup, TrackpadMotionConfig, TrackpadMotionEvent, TrackpadScrollConfig,
    TrackpadScrollDelta, CUSTOM_EVENT_DYNAMIC_SCALE, SCROLL_SMOOTHING_FP_SHIFT,
};

fn collect_edges(mut events: TrackpadButtonEvents) -> Vec<TrackpadButtonEvent> {
    let mut out = Vec::new();
    while let Some(event) = events.next() {
        out.push(event);
    }
    out
}

fn collect_clicks(mut events: TrackpadClickEvents) -> Vec<TrackpadButtonEvent> {
    let mut out = Vec::new();
    while let Some(event) = events.next() {
        out.push(event);
    }
    out
}

fn frame_with_fingers(
    fingers: u8,
    finger1_x: u16,
    finger1_y: u16,
    finger2_x: u16,
    finger2_y: u16,
) -> CoordinateFrame {
    let mut trackpad_flags = u16::from(fingers);
    if fingers >= 1 {
        trackpad_flags |= TP_FINGER1_CONFIDENCE;
    }
    if fingers >= 2 {
        trackpad_flags |= TP_FINGER2_CONFIDENCE;
    }

    CoordinateFrame {
        trackpad_flags,
        finger1: FingerPosition {
            x: finger1_x,
            y: finger1_y,
        },
        finger2: FingerPosition {
            x: finger2_x,
            y: finger2_y,
        },
        ..CoordinateFrame::default()
    }
}

fn frame_with_relative_two_finger_motion(
    relative_x: i16,
    relative_y: i16,
    finger1_confident: bool,
    finger2_confident: bool,
) -> CoordinateFrame {
    let mut trackpad_flags = TP_MOVEMENT_DETECTED | 2;
    if finger1_confident {
        trackpad_flags |= TP_FINGER1_CONFIDENCE;
    }
    if finger2_confident {
        trackpad_flags |= TP_FINGER2_CONFIDENCE;
    }

    CoordinateFrame {
        relative_x,
        relative_y,
        trackpad_flags,
        finger1: if finger1_confident {
            FingerPosition { x: 100, y: 100 }
        } else {
            FingerPosition {
                x: u16::MAX,
                y: u16::MAX,
            }
        },
        finger2: if finger2_confident {
            FingerPosition { x: 200, y: 100 }
        } else {
            FingerPosition {
                x: u16::MAX,
                y: u16::MAX,
            }
        },
        ..CoordinateFrame::default()
    }
}

#[test]
fn maps_input_buttons_to_left_virtual_positions() {
    let expected = [
        (TrackpadButton::LeftClick, (5, 0)),
        (TrackpadButton::RightClick, (5, 1)),
        (TrackpadButton::MiddleClick, (5, 2)),
        (TrackpadButton::GestureLeft, (6, 0)),
        (TrackpadButton::GestureRight, (6, 1)),
        (TrackpadButton::GestureUp, (6, 2)),
        (TrackpadButton::GestureDown, (6, 3)),
        (TrackpadButton::Pinch, (6, 4)),
    ];

    for (button, (row, col)) in expected {
        assert_eq!(
            trackpad_button_position(TrackpadSide::Left, button),
            VirtualKeyPosition { row, col }
        );
    }
}

#[test]
fn maps_input_buttons_to_right_virtual_positions() {
    let expected = [
        (TrackpadButton::LeftClick, (5, 9)),
        (TrackpadButton::RightClick, (5, 10)),
        (TrackpadButton::MiddleClick, (5, 11)),
        (TrackpadButton::GestureLeft, (6, 7)),
        (TrackpadButton::GestureRight, (6, 8)),
        (TrackpadButton::GestureUp, (6, 9)),
        (TrackpadButton::GestureDown, (6, 10)),
        (TrackpadButton::Pinch, (6, 11)),
    ];

    for (button, (row, col)) in expected {
        assert_eq!(
            trackpad_button_position(TrackpadSide::Right, button),
            VirtualKeyPosition { row, col }
        );
    }
}

#[test]
fn parses_coordinate_block_offsets() {
    let mut block = [0; COORD_BLOCK_LENGTH];
    block[0x00..0x02].copy_from_slice(&(-12i16).to_le_bytes());
    block[0x02..0x04].copy_from_slice(&(34i16).to_le_bytes());
    block[0x08..0x0a].copy_from_slice(&0x0001u16.to_le_bytes());
    block[0x0a..0x0c].copy_from_slice(&0x0040u16.to_le_bytes());
    block[0x0c..0x0e].copy_from_slice(&INFO_SHOW_RESET.to_le_bytes());
    block[0x0e..0x10].copy_from_slice(&(TP_FINGER1_CONFIDENCE | 2).to_le_bytes());
    block[0x10..0x12].copy_from_slice(&123u16.to_le_bytes());
    block[0x12..0x14].copy_from_slice(&456u16.to_le_bytes());
    block[0x18..0x1a].copy_from_slice(&789u16.to_le_bytes());
    block[0x1a..0x1c].copy_from_slice(&1024u16.to_le_bytes());

    let frame = CoordinateFrame::parse(&block);

    assert_eq!(frame.relative_x, -12);
    assert_eq!(frame.relative_y, 34);
    assert_eq!(frame.single_gestures, 0x0001);
    assert_eq!(frame.two_finger_gestures, 0x0040);
    assert!(frame.show_reset());
    assert_eq!(frame.finger_count(), 2);
    assert_eq!(frame.finger1, FingerPosition { x: 123, y: 456 });
    assert_eq!(frame.finger2, FingerPosition { x: 789, y: 1024 });
}

#[test]
fn tracks_button_press_and_release_edges() {
    let mut state = TrackpadButtonState::new(TrackpadSide::Right);

    let pressed = collect_edges(state.update(0b0000_0011));
    assert_eq!(
        pressed,
        vec![
            TrackpadButtonEvent {
                button: TrackpadButton::LeftClick,
                position: VirtualKeyPosition { row: 5, col: 9 },
                pressed: true,
            },
            TrackpadButtonEvent {
                button: TrackpadButton::RightClick,
                position: VirtualKeyPosition { row: 5, col: 10 },
                pressed: true,
            },
        ]
    );

    let changed = collect_edges(state.update(0b1000_0010));
    assert_eq!(
        changed,
        vec![
            TrackpadButtonEvent {
                button: TrackpadButton::LeftClick,
                position: VirtualKeyPosition { row: 5, col: 9 },
                pressed: false,
            },
            TrackpadButtonEvent {
                button: TrackpadButton::Pinch,
                position: VirtualKeyPosition { row: 6, col: 11 },
                pressed: true,
            },
        ]
    );
}

#[test]
fn defers_left_button_release_for_one_finger_tap() {
    let mut recognizer = TrackpadGestureRecognizer::with_defaults();

    assert_eq!(recognizer.update(frame_with_fingers(1, 100, 200, 0, 0), 1000), None);
    assert_eq!(recognizer.update(frame_with_fingers(1, 115, 210, 0, 0), 1050), None);
    assert_eq!(
        recognizer.update(frame_with_fingers(0, 0, 0, 0, 0), 1100),
        Some(TrackpadGestureEvent::Button {
            button: TrackpadButton::LeftClick,
            pressed: true,
        })
    );
    assert_eq!(recognizer.update(frame_with_fingers(0, 0, 0, 0, 0), 1259), None);
    assert_eq!(
        recognizer.update(frame_with_fingers(0, 0, 0, 0, 0), 1260),
        Some(TrackpadGestureEvent::Button {
            button: TrackpadButton::LeftClick,
            pressed: false,
        })
    );
}

#[test]
fn keeps_left_button_held_for_one_finger_tap_drag_reentry() {
    let mut recognizer = TrackpadGestureRecognizer::with_defaults();

    assert_eq!(recognizer.update(frame_with_fingers(1, 100, 200, 0, 0), 1000), None);
    assert_eq!(
        recognizer.update(frame_with_fingers(0, 0, 0, 0, 0), 1060),
        Some(TrackpadGestureEvent::Button {
            button: TrackpadButton::LeftClick,
            pressed: true,
        })
    );
    assert_eq!(recognizer.update(frame_with_fingers(1, 102, 201, 0, 0), 1120), None);
    assert_eq!(recognizer.update(frame_with_fingers(1, 190, 240, 0, 0), 1180), None);
    assert_eq!(
        recognizer.update(frame_with_fingers(0, 0, 0, 0, 0), 1240),
        Some(TrackpadGestureEvent::Button {
            button: TrackpadButton::LeftClick,
            pressed: false,
        })
    );
}

#[test]
fn emits_right_click_for_two_finger_tap() {
    let mut recognizer = TrackpadGestureRecognizer::with_defaults();

    assert_eq!(recognizer.update(frame_with_fingers(2, 100, 200, 300, 200), 1000), None);
    assert_eq!(recognizer.update(frame_with_fingers(2, 110, 205, 310, 205), 1050), None);
    assert_eq!(
        recognizer.update(frame_with_fingers(0, 0, 0, 0, 0), 1100),
        Some(TrackpadGestureEvent::Button {
            button: TrackpadButton::RightClick,
            pressed: true,
        })
    );
    assert_eq!(
        recognizer.update(frame_with_fingers(0, 0, 0, 0, 0), 1300),
        Some(TrackpadGestureEvent::Button {
            button: TrackpadButton::RightClick,
            pressed: false,
        })
    );
}

#[test]
fn emits_three_finger_swipe_once() {
    let mut recognizer = TrackpadGestureRecognizer::with_defaults();

    assert_eq!(recognizer.update(frame_with_fingers(3, 100, 200, 0, 0), 1000), None);
    assert_eq!(
        recognizer.update(frame_with_fingers(3, 350, 210, 0, 0), 1050),
        Some(TrackpadGestureEvent::Click(TrackpadButton::GestureRight))
    );
    assert_eq!(recognizer.update(frame_with_fingers(3, 420, 210, 0, 0), 1100), None);
    assert_eq!(recognizer.update(frame_with_fingers(0, 0, 0, 0, 0), 1150), None);
}

#[test]
fn turns_gesture_click_into_press_and_release_events() {
    let events = collect_clicks(
        TrackpadGestureEvent::Click(TrackpadButton::GestureUp).button_events(TrackpadSide::Left),
    );

    assert_eq!(
        events,
        vec![
            TrackpadButtonEvent {
                button: TrackpadButton::GestureUp,
                position: VirtualKeyPosition { row: 6, col: 2 },
                pressed: true,
            },
            TrackpadButtonEvent {
                button: TrackpadButton::GestureUp,
                position: VirtualKeyPosition { row: 6, col: 2 },
                pressed: false,
            },
        ]
    );
}

#[test]
fn encodes_pointer_motion_as_custom_event() {
    let motion = TrackpadMotionEvent {
        side: TrackpadSide::Left,
        x: -12,
        y: 34,
        wheel: 3,
        pan: -4,
        buttons: 0,
        button_state_valid: false,
    };

    assert_eq!(TrackpadMotionEvent::decode(motion.encode()), Some(motion));
    assert_eq!(TrackpadMotionEvent::decode([0; 16]), None);

    let button_state = TrackpadMotionEvent::button_state(TrackpadSide::Right, 1);
    assert_eq!(
        TrackpadMotionEvent::decode(button_state.encode()),
        Some(button_state)
    );
}

#[test]
fn decodes_dynamic_scale_custom_event() {
    let mut payload = custom_event_payload(CUSTOM_EVENT_DYNAMIC_SCALE);
    payload[5] = 2;
    payload[6] = 3;

    assert_eq!(
        TrackpadDynamicScaleEvent::decode(payload),
        Some(TrackpadDynamicScaleEvent::new(
            TrackpadDynamicScaleGroup::All,
            TrackpadDynamicScaleAction::Reset
        ))
    );
}

#[test]
fn pinch_motion_reverses_direction_and_caps_wheel_step() {
    assert_eq!(
        pinch_wheel_to_motion(TrackpadSide::Right, 4),
        Some(TrackpadMotionEvent::scroll(TrackpadSide::Right, -1, 0))
    );
    assert_eq!(
        pinch_wheel_to_motion(TrackpadSide::Right, -4),
        Some(TrackpadMotionEvent::scroll(TrackpadSide::Right, 1, 0))
    );
}

#[test]
fn applies_motion_transform_and_divisor() {
    let config = TrackpadMotionConfig::new(TrackpadAxisTransform::new(true, false, true), 2);
    let mut remainder_x = 0;
    let mut remainder_y = 0;

    assert_eq!(
        config.motion_event(TrackpadSide::Right, 20, -8, &mut remainder_x, &mut remainder_y),
        Some(TrackpadMotionEvent {
            side: TrackpadSide::Right,
            x: 4,
            y: 10,
            wheel: 0,
            pan: 0,
            buttons: 0,
            button_state_valid: false,
        })
    );
}

#[test]
fn accumulates_scaled_motion_remainders() {
    let config = TrackpadMotionConfig::new(TrackpadAxisTransform::default(), 3);
    let mut remainder_x = 0;
    let mut remainder_y = 0;

    assert_eq!(
        config.motion_event(TrackpadSide::Left, 2, -2, &mut remainder_x, &mut remainder_y),
        None
    );
    assert_eq!(
        config.motion_event(TrackpadSide::Left, 1, -1, &mut remainder_x, &mut remainder_y),
        Some(TrackpadMotionEvent {
            side: TrackpadSide::Left,
            x: 1,
            y: -1,
            wheel: 0,
            pan: 0,
            buttons: 0,
            button_state_valid: false,
        })
    );
}

#[test]
fn scales_fast_two_finger_scroll_to_unit_wheel_and_pan() {
    let config = TrackpadScrollConfig::default();
    let mut remainder_x = 0;
    let mut remainder_y = 0;

    assert_eq!(
        config.scroll_event(TrackpadSide::Right, 64, -96, &mut remainder_x, &mut remainder_y),
        Some(TrackpadMotionEvent {
            side: TrackpadSide::Right,
            x: 0,
            y: 0,
            wheel: 2,
            pan: 2,
            buttons: 0,
            button_state_valid: false,
        })
    );
}

#[test]
fn low_speed_scroll_uses_larger_divisor() {
    let config = TrackpadScrollConfig::default();
    let mut remainder_x = 0;
    let mut remainder_y = 0;

    assert_eq!(
        config.scroll_event(TrackpadSide::Right, 0, -6, &mut remainder_x, &mut remainder_y),
        None
    );
    assert_eq!(
        config.scroll_event(TrackpadSide::Right, 0, -8, &mut remainder_x, &mut remainder_y),
        None
    );
    assert_eq!(
        config.scroll_event(TrackpadSide::Right, 0, -10, &mut remainder_x, &mut remainder_y),
        Some(TrackpadMotionEvent {
            side: TrackpadSide::Right,
            x: 0,
            y: 0,
            wheel: 1,
            pan: 0,
            buttons: 0,
            button_state_valid: false,
        })
    );
}

#[test]
fn smooths_scroll_delta_spikes() {
    assert_eq!(
        fixed_point_to_i16_rounded(smooth_scroll_axis(0, 80), SCROLL_SMOOTHING_FP_SHIFT),
        40
    );
    assert_eq!(
        fixed_point_to_i16_rounded(
            smooth_scroll_axis(40 << SCROLL_SMOOTHING_FP_SHIFT, 0),
            SCROLL_SMOOTHING_FP_SHIFT
        ),
        0
    );
}

#[test]
fn scroll_smoothing_preserves_small_delta() {
    assert_eq!(
        fixed_point_to_i16_rounded(smooth_scroll_axis(0, 1), SCROLL_SMOOTHING_FP_SHIFT),
        1
    );
}

#[test]
fn rounds_negative_fixed_point_without_extra_bias() {
    assert_eq!(
        fixed_point_to_i16_rounded(-(1 << SCROLL_SMOOTHING_FP_SHIFT), SCROLL_SMOOTHING_FP_SHIFT),
        -1
    );
    assert_eq!(
        fixed_point_to_i16_rounded(-(40 << SCROLL_SMOOTHING_FP_SHIFT), SCROLL_SMOOTHING_FP_SHIFT),
        -40
    );
}

#[test]
fn drops_excess_large_scroll_delta_after_capped_report() {
    let config = TrackpadScrollConfig::default();
    let mut remainder_x = 0;
    let mut remainder_y = 0;

    assert_eq!(
        config.scroll_event(TrackpadSide::Right, 0, -120, &mut remainder_x, &mut remainder_y),
        Some(TrackpadMotionEvent {
            side: TrackpadSide::Right,
            x: 0,
            y: 0,
            wheel: 2,
            pan: 0,
            buttons: 0,
            button_state_valid: false,
        })
    );
    assert_eq!(
        config.scroll_event(TrackpadSide::Right, 0, 0, &mut remainder_x, &mut remainder_y),
        None
    );
}

#[test]
fn stationary_scroll_frame_does_not_drain_low_speed_remainder() {
    let config = TrackpadScrollConfig::default();
    let mut remainder_x = 0;
    let mut remainder_y = 0;

    assert_eq!(
        config.scroll_event(TrackpadSide::Right, 0, -10, &mut remainder_x, &mut remainder_y),
        None
    );
    assert_eq!(
        config.scroll_event(TrackpadSide::Right, 0, -10, &mut remainder_x, &mut remainder_y),
        None
    );
    assert_eq!(
        config.scroll_event(TrackpadSide::Right, 0, 0, &mut remainder_x, &mut remainder_y),
        None
    );
}

#[test]
fn default_motion_transform_keeps_xy_direction() {
    let config = TrackpadMotionConfig::default();
    let mut remainder_x = 0;
    let mut remainder_y = 0;

    assert_eq!(
        config.motion_event(TrackpadSide::Right, 12, -7, &mut remainder_x, &mut remainder_y),
        Some(TrackpadMotionEvent {
            side: TrackpadSide::Right,
            x: 12,
            y: -7,
            wheel: 0,
            pan: 0,
            buttons: 0,
            button_state_valid: false,
        })
    );
}

#[test]
fn emits_scroll_for_two_finger_centroid_motion() {
    let mut recognizer = TrackpadGestureRecognizer::with_defaults();

    assert_eq!(recognizer.update(frame_with_fingers(2, 100, 100, 200, 100), 1000), None);
    assert_eq!(
        recognizer.update(frame_with_fingers(2, 100, 170, 200, 170), 1010),
        Some(TrackpadGestureEvent::Scroll(TrackpadScrollDelta { x: 0, y: 70 }))
    );
}

#[test]
fn defers_initial_two_finger_relative_scroll_when_positions_are_confident() {
    let mut recognizer = TrackpadGestureRecognizer::with_defaults();

    assert_eq!(
        recognizer.update(frame_with_relative_two_finger_motion(0, 30, true, true), 1000),
        None
    );
}

#[test]
fn emits_scroll_from_relative_motion_when_finger_positions_are_not_confident() {
    let mut recognizer = TrackpadGestureRecognizer::with_defaults();

    assert_eq!(
        recognizer.update(frame_with_relative_two_finger_motion(0, 12, false, false), 1000),
        Some(TrackpadGestureEvent::Scroll(TrackpadScrollDelta { x: 0, y: 12 }))
    );
}

#[test]
fn ignores_relative_scroll_during_two_finger_tapdrag_reentry() {
    let mut recognizer = TrackpadGestureRecognizer::with_defaults();

    assert_eq!(recognizer.update(frame_with_fingers(2, 100, 200, 300, 200), 1000), None);
    assert_eq!(
        recognizer.update(frame_with_fingers(0, 0, 0, 0, 0), 1060),
        Some(TrackpadGestureEvent::Button {
            button: TrackpadButton::RightClick,
            pressed: true,
        })
    );
    assert_eq!(
        recognizer.update(frame_with_relative_two_finger_motion(0, 30, false, false), 1120),
        None
    );
}

#[test]
fn ignores_tiny_relative_scroll_before_scroll_mode_is_selected() {
    let mut recognizer = TrackpadGestureRecognizer::with_defaults();

    assert_eq!(recognizer.update(frame_with_fingers(2, 100, 100, 200, 100), 1000), None);
    assert_eq!(
        recognizer.update(frame_with_relative_two_finger_motion(0, 1, false, false), 1010),
        None
    );
}

#[test]
fn emits_scroll_ended_after_relative_scroll_release() {
    let mut recognizer = TrackpadGestureRecognizer::with_defaults();

    assert_eq!(
        recognizer.update(frame_with_relative_two_finger_motion(0, 12, false, false), 1000),
        Some(TrackpadGestureEvent::Scroll(TrackpadScrollDelta { x: 0, y: 12 }))
    );
    assert_eq!(
        recognizer.update(frame_with_fingers(0, 0, 0, 0, 0), 1010),
        Some(TrackpadGestureEvent::ScrollEnded)
    );
}

#[test]
fn continues_scroll_from_relative_motion_after_position_confidence_drops() {
    let mut recognizer = TrackpadGestureRecognizer::with_defaults();

    assert_eq!(recognizer.update(frame_with_fingers(2, 100, 100, 200, 100), 1000), None);
    assert_eq!(
        recognizer.update(frame_with_relative_two_finger_motion(0, 10, false, false), 1010),
        Some(TrackpadGestureEvent::Scroll(TrackpadScrollDelta { x: 0, y: 10 }))
    );
}

#[test]
fn prefers_relative_scroll_when_current_confidence_drops_but_prev_frame_was_valid() {
    let mut recognizer = TrackpadGestureRecognizer::with_defaults();

    assert_eq!(recognizer.update(frame_with_fingers(2, 100, 100, 200, 100), 1000), None);
    assert_eq!(
        recognizer.update(frame_with_relative_two_finger_motion(0, 12, false, false), 1010),
        Some(TrackpadGestureEvent::Scroll(TrackpadScrollDelta { x: 0, y: 12 }))
    );
}

#[test]
fn resyncs_absolute_metrics_after_relative_scroll_without_burst() {
    let mut recognizer = TrackpadGestureRecognizer::with_defaults();

    assert_eq!(recognizer.update(frame_with_fingers(2, 100, 100, 200, 100), 1000), None);
    assert_eq!(
        recognizer.update(frame_with_relative_two_finger_motion(0, 10, false, false), 1010),
        Some(TrackpadGestureEvent::Scroll(TrackpadScrollDelta { x: 0, y: 10 }))
    );
    assert_eq!(recognizer.update(frame_with_fingers(2, 100, 130, 200, 130), 1020), None);
    assert_eq!(
        recognizer.update(frame_with_fingers(2, 100, 140, 200, 140), 1030),
        Some(TrackpadGestureEvent::Scroll(TrackpadScrollDelta { x: 0, y: 10 }))
    );
}

#[test]
fn emits_scroll_ended_after_two_finger_scroll_release() {
    let mut recognizer = TrackpadGestureRecognizer::with_defaults();

    assert_eq!(recognizer.update(frame_with_fingers(2, 100, 100, 200, 100), 1000), None);
    assert_eq!(
        recognizer.update(frame_with_fingers(2, 100, 170, 200, 170), 1010),
        Some(TrackpadGestureEvent::Scroll(TrackpadScrollDelta { x: 0, y: 70 }))
    );
    assert_eq!(
        recognizer.update(frame_with_fingers(0, 0, 0, 0, 0), 1020),
        Some(TrackpadGestureEvent::ScrollEnded)
    );
}

#[test]
fn emits_pinch_button_and_wheel_for_two_finger_distance_motion() {
    let mut recognizer = TrackpadGestureRecognizer::with_defaults();

    assert_eq!(recognizer.update(frame_with_fingers(2, 100, 100, 200, 100), 1000), None);
    assert_eq!(
        recognizer.update(frame_with_fingers(2, 20, 100, 280, 100), 1010),
        Some(TrackpadGestureEvent::PinchStarted(1))
    );
    assert_eq!(
        recognizer.update(frame_with_fingers(2, 0, 100, 300, 100), 1020),
        Some(TrackpadGestureEvent::PinchWheel(1))
    );
    assert_eq!(
        recognizer.update(frame_with_fingers(0, 0, 0, 0, 0), 1030),
        Some(TrackpadGestureEvent::Button {
            button: TrackpadButton::Pinch,
            pressed: false,
        })
    );
}

#[test]
fn prefers_pinch_over_scroll_when_distance_change_dominates() {
    let mut recognizer = TrackpadGestureRecognizer::with_defaults();

    assert_eq!(recognizer.update(frame_with_fingers(2, 100, 100, 200, 100), 1000), None);
    assert_eq!(
        recognizer.update(frame_with_fingers(2, 80, 100, 340, 100), 1010),
        Some(TrackpadGestureEvent::PinchStarted(1))
    );
}

#[test]
fn keeps_ambiguous_two_finger_motion_pending_until_pinch_threshold() {
    let mut recognizer = TrackpadGestureRecognizer::with_defaults();

    assert_eq!(recognizer.update(frame_with_fingers(2, 100, 100, 200, 100), 1000), None);
    assert_eq!(recognizer.update(frame_with_fingers(2, 110, 100, 290, 100), 1010), None);
    assert_eq!(
        recognizer.update(frame_with_fingers(2, 80, 100, 330, 100), 1020),
        Some(TrackpadGestureEvent::PinchStarted(0))
    );
}

#[test]
fn switches_from_scroll_to_pinch_when_distance_becomes_dominant() {
    let mut recognizer = TrackpadGestureRecognizer::with_defaults();

    assert_eq!(recognizer.update(frame_with_fingers(2, 100, 100, 200, 100), 1000), None);
    assert_eq!(
        recognizer.update(frame_with_fingers(2, 160, 100, 240, 100), 1010),
        Some(TrackpadGestureEvent::Scroll(TrackpadScrollDelta { x: 50, y: 0 }))
    );
    assert_eq!(
        recognizer.update(frame_with_fingers(2, 120, 100, 380, 100), 1020),
        Some(TrackpadGestureEvent::PinchStarted(1))
    );
}

#[test]
fn seeds_scroll_inertia_from_recent_history() {
    let mut history = ScrollMotionHistory::new();
    history.push(TrackpadScrollDelta { x: 0, y: 60 }, 1000);
    history.push(TrackpadScrollDelta { x: 0, y: 60 }, 1010);

    let seed = history
        .seed(1020)
        .expect("recent scroll should seed inertia");
    assert_eq!(seed.vx_fp, 0);
    assert!(seed.vy_fp > 0);
}

#[test]
fn seeds_cursor_inertia_from_fast_recent_motion() {
    let mut history = ScrollMotionHistory::new();
    history.push(TrackpadScrollDelta { x: 12, y: 0 }, 1000);
    history.push(TrackpadScrollDelta { x: 12, y: 0 }, 1010);

    let seed = history
        .seed_with(1020, cursor_inertia_config())
        .expect("recent cursor motion should seed inertia");
    assert!(seed.vx_fp > 0);
    assert_eq!(seed.vy_fp, 0);
}

#[test]
fn scroll_inertia_decays_after_release() {
    let mut history = ScrollMotionHistory::new();
    history.push(TrackpadScrollDelta { x: 0, y: 60 }, 1000);
    history.push(TrackpadScrollDelta { x: 0, y: 60 }, 1010);
    let seed = history
        .seed(1020)
        .expect("recent scroll should seed inertia");

    let mut inertia = ScrollInertiaState::new();
    inertia.start(seed, 1020);
    assert_eq!(inertia.step(1025), None);

    let first = inertia.step(1030).expect("due inertia step");
    assert_eq!(first.x, 0);
    assert!(first.y > 0);

    let second = inertia.step(1040).expect("second inertia step");
    assert!(second.y > 0);
    assert!(second.y <= first.y);
}

#[test]
fn inertia_scroll_uses_lower_sensitivity_and_step_cap() {
    let config = TrackpadScrollConfig::default();
    let mut remainder_x = 0;
    let mut remainder_y = 0;

    assert_eq!(
        config.inertia_scroll_event(TrackpadSide::Right, 0, -120, &mut remainder_x, &mut remainder_y),
        Some(TrackpadMotionEvent {
            side: TrackpadSide::Right,
            x: 0,
            y: 0,
            wheel: 1,
            pan: 0,
            buttons: 0,
            button_state_valid: false,
        })
    );
}

#[test]
fn cursor_motion_does_not_cancel_tap_by_itself() {
    let mut recognizer = TrackpadGestureRecognizer::with_defaults();
    let motion_frame = CoordinateFrame {
        relative_x: 1,
        trackpad_flags: TP_MOVEMENT_DETECTED | TP_FINGER1_CONFIDENCE | u16::from(1u8),
        finger1: FingerPosition { x: 100, y: 200 },
        ..CoordinateFrame::default()
    };

    assert_eq!(recognizer.update(motion_frame, 1000), None);
    assert_eq!(
        recognizer.update(frame_with_fingers(0, 0, 0, 0, 0), 1050),
        Some(TrackpadGestureEvent::Button {
            button: TrackpadButton::LeftClick,
            pressed: true,
        })
    );
    assert_eq!(
        recognizer.update(frame_with_fingers(0, 0, 0, 0, 0), 1210),
        Some(TrackpadGestureEvent::Button {
            button: TrackpadButton::LeftClick,
            pressed: false,
        })
    );
}

#[test]
fn ignores_relative_delta_without_movement_flag() {
    assert!(cursor_motion_detected(CoordinateFrame {
        relative_x: 2,
        trackpad_flags: TP_MOVEMENT_DETECTED | 1,
        ..CoordinateFrame::default()
    }));
    assert!(!cursor_motion_detected(CoordinateFrame {
        relative_x: 2,
        trackpad_flags: 0,
        ..CoordinateFrame::default()
    }));
}
