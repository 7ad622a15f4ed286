use lalapad_gen2_rmk::iqs9151::buttons::{TrackpadButton, TrackpadSide};
use lalapad_gen2_rmk::iqs9151::device::{FrameOutcome, Iqs9151MotionOutput, TrackpadRuntime};
use lalapad_gen2_rmk::iqs9151::frame::{
    CoordinateFrame, FingerPosition, TP_FINGER1_CONFIDENCE, TP_FINGER2_CONFIDENCE,
    TP_MOVEMENT_DETECTED,
};
use lalapad_gen2_rmk::iqs9151::gesture::{
    TrackpadGestureConfig, TrackpadGestureEvent, TrackpadGestureRecognizer,
};
use lalapad_gen2_rmk::iqs9151::motion::{TrackpadMotionEvent, TrackpadPinchReport};

fn touch(fingers: u8, x: u16, y: u16) -> CoordinateFrame {
    let mut flags = u16::from(fingers);
    if fingers >= 1 {
        flags |= TP_FINGER1_CONFIDENCE;
    }
    CoordinateFrame {
        trackpad_flags: flags,
        finger1: FingerPosition { x, y },
        ..CoordinateFrame::default()
    }
}

fn moving(x: i16, y: i16, at_x: u16) -> CoordinateFrame {
    CoordinateFrame {
        relative_x: x,
        relative_y: y,
        trackpad_flags: TP_MOVEMENT_DETECTED | TP_FINGER1_CONFIDENCE | 1,
        finger1: FingerPosition { x: at_x, y: 300 },
        ..CoordinateFrame::default()
    }
}

#[test]
fn reset_forgets_the_held_button() {
    let mut recognizer = TrackpadGestureRecognizer::with_defaults();
    assert_eq!(recognizer.update(touch(1, 100, 200), 1000), None);
    assert_eq!(
        recognizer.update(touch(0, 0, 0), 1060),
        Some(TrackpadGestureEvent::Button {
            button: TrackpadButton::LeftClick,
            pressed: true,
        })
    );
    assert_eq!(recognizer.hold_button, Some(TrackpadButton::LeftClick));
    recognizer.reset();
    assert_eq!(recognizer.hold_button, None);
    for t in [1100, 1300, 1600] {
        assert_eq!(recognizer.update(touch(0, 0, 0), t), None);
    }
}

#[test]
fn every_press_is_followed_by_its_own_release() {
    let mut recognizer = TrackpadGestureRecognizer::with_defaults();
    let frames = [
        (touch(1, 100, 200), 1000),
        (touch(0, 0, 0), 1060),
        (touch(1, 100, 200), 1100),
        (touch(0, 0, 0), 1150),
        (touch(0, 0, 0), 1400),
        (touch(0, 0, 0), 1700),
    ];
    let mut held: Option<TrackpadButton> = None;
    for (frame, t) in frames {
        match recognizer.update(frame, t) {
            Some(TrackpadGestureEvent::Button { button, pressed: true }) => {
                assert_eq!(held, None);
                held = Some(button);
            }
            Some(TrackpadGestureEvent::Button { button, pressed: false }) => {
                assert_eq!(held, Some(button));
                held = None;
            }
            Some(TrackpadGestureEvent::ReleaseAndClick(button)) => {
                assert_eq!(held, Some(button));
                held = None;
            }
            _ => {}
        }
    }
    assert_eq!(held, None);
}

#[test]
fn pinch_reports_round_trip_and_never_read_as_motion() {
    let report = TrackpadPinchReport::new(
        TrackpadSide::Left,
        true,
        true,
        TrackpadMotionEvent::scroll(TrackpadSide::Left, -1, 2),
    );
    assert_eq!(TrackpadPinchReport::decode(report.encode()), Some(report));
    assert_eq!(TrackpadMotionEvent::decode(report.encode()), None);
    let motion = TrackpadMotionEvent::cursor(TrackpadSide::Right, 5, 6);
    assert_eq!(TrackpadPinchReport::decode(motion.encode()), None);
}

#[test]
fn capping_twice_is_capping_once() {
    let motion = TrackpadMotionEvent {
        side: TrackpadSide::Right,
        x: 500,
        y: -500,
        wheel: 9,
        pan: -9,
        buttons: 3,
        button_state_valid: true,
    };
    let once = motion.capped();
    assert_eq!(once.capped(), once);
    assert_eq!((once.x, once.y, once.wheel, once.pan), (36, -36, 2, -2));
}

#[test]
fn queued_pending_motion_stays_capped() {
    let mut rt = TrackpadRuntime::new(TrackpadSide::Left);
    rt.set_motion_output(Iqs9151MotionOutput::HidReport);
    for _ in 0..5 {
        rt.queue_pending_motion(TrackpadMotionEvent::cursor(TrackpadSide::Left, 30, -30));
    }
    let pending = rt.pending_motion_to_send().expect("failed sends stay pending");
    assert_eq!((pending.x, pending.y), (36, -36));
}

#[test]
fn touching_the_pad_stops_a_cursor_fling() {
    let mut rt = TrackpadRuntime::new(TrackpadSide::Right);
    rt.set_cursor_inertia_enabled(true);
    let mut sends = Vec::new();
    assert!(matches!(rt.frame_read(moving(20, 0, 100), 1000, &mut sends), FrameOutcome::Emit(_)));
    assert!(matches!(rt.frame_read(moving(20, 0, 400), 1010, &mut sends), FrameOutcome::Emit(_)));
    rt.frame_read(CoordinateFrame::default(), 1020, &mut sends);
    assert!(rt.cursor.inertia.active);
    rt.frame_read(touch(1, 300, 300), 1030, &mut sends);
    assert!(!rt.cursor.inertia.active);
}

#[test]
fn sides_and_button_codes_round_trip() {
    for side in [TrackpadSide::Left, TrackpadSide::Right] {
        assert_eq!(TrackpadSide::from_wire(side.to_wire()), Some(side));
    }
    assert_eq!(TrackpadSide::from_wire(2), None);
    let buttons = [
        TrackpadButton::LeftClick,
        TrackpadButton::RightClick,
        TrackpadButton::MiddleClick,
        TrackpadButton::GestureLeft,
        TrackpadButton::GestureRight,
        TrackpadButton::GestureUp,
        TrackpadButton::GestureDown,
        TrackpadButton::Pinch,
    ];
    for button in buttons {
        assert_eq!(TrackpadButton::from_input_btn_code(button.input_btn_code()), Some(button));
    }
    assert_eq!(TrackpadButton::from_input_btn_code(8), None);
    for side in [TrackpadSide::Left, TrackpadSide::Right] {
        for (i, a) in buttons.iter().enumerate() {
            for b in &buttons[i + 1..] {
                assert_ne!(
                    lalapad_gen2_rmk::iqs9151::buttons::trackpad_button_position(side, *a),
                    lalapad_gen2_rmk::iqs9151::buttons::trackpad_button_position(side, *b)
                );
            }
        }
    }
}

fn two_touch(x1: u16, x2: u16) -> CoordinateFrame {
    CoordinateFrame {
        trackpad_flags: 2 | TP_FINGER1_CONFIDENCE | TP_FINGER2_CONFIDENCE,
        finger1: FingerPosition { x: x1, y: 300 },
        finger2: FingerPosition { x: x2, y: 300 },
        ..CoordinateFrame::default()
    }
}

fn with_gesture_bits(frame: CoordinateFrame, seed: u16) -> CoordinateFrame {
    CoordinateFrame {
        single_gestures: 0x00ff ^ seed,
        two_finger_gestures: 0x0f0f ^ seed,
        info_flags: 0xffff ^ seed,
        ..frame
    }
}

#[test]
fn only_click_buttons_are_ever_pressed() {
    let mut recognizer = TrackpadGestureRecognizer::with_defaults();
    let frames = [
        (touch(1, 100, 200), 1000),
        (touch(0, 0, 0), 1060),
        (touch(0, 0, 0), 1400),
        (two_touch(100, 400), 2000),
        (touch(0, 0, 0), 2060),
        (touch(0, 0, 0), 2500),
    ];
    let mut presses = 0;
    for (frame, t) in frames {
        if let Some(TrackpadGestureEvent::Button { button, pressed: true }) = recognizer.update(frame, t) {
            assert!(matches!(
                button,
                TrackpadButton::LeftClick | TrackpadButton::RightClick | TrackpadButton::MiddleClick
            ));
            presses += 1;
        }
    }
    assert_eq!(presses, 2);
}

#[test]
fn sensor_gesture_bits_never_change_the_events() {
    let frames = [
        (touch(1, 100, 200), 1000),
        (touch(0, 0, 0), 1060),
        (touch(1, 100, 200), 1100),
        (moving(20, 0, 140), 1120),
        (touch(0, 0, 0), 1300),
        (two_touch(100, 400), 2000),
        (two_touch(100, 300), 2020),
        (touch(0, 0, 0), 2100),
        (touch(0, 0, 0), 2600),
    ];
    let mut plain = TrackpadGestureRecognizer::with_defaults();
    let mut noisy = TrackpadGestureRecognizer::with_defaults();
    for (i, (frame, t)) in frames.into_iter().enumerate() {
        let a = plain.update(frame, t);
        let b = noisy.update(with_gesture_bits(frame, i as u16), t);
        assert_eq!(a, b);
    }
}

#[test]
fn updates_and_reset_keep_the_configuration() {
    let mut config = TrackpadGestureConfig::default();
    config.one_finger_tap_max_ms = 180;
    config.three_finger_swipe_move = 77;
    let mut recognizer = TrackpadGestureRecognizer::new(config);
    for (frame, t) in [
        (touch(1, 100, 200), 1000),
        (touch(0, 0, 0), 1060),
        (two_touch(100, 400), 2000),
        (touch(0, 0, 0), 2060),
    ] {
        recognizer.update(frame, t);
        assert_eq!(recognizer.config(), config);
    }
    recognizer.reset();
    assert_eq!(recognizer.config(), config);
}
