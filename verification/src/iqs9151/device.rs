//! The trackpad input device's decisions, apart from the bus and the clock.
//!
//! The firmware's read loop alternates sensor I/O, waits and these decisions.
//! Each step here takes what the loop observed (an initialisation result, the
//! time, a coordinate frame or a read error) and returns what to do next:
//! an event to hand to the keyboard, whether to sleep or read again, and the
//! motions to send out (mouse reports or split events). The loop sends those
//! motions in order after each step and hands back each one that could not
//! be sent, which is then merged into the pending motion.
use vstd::prelude::*;
use crate::iqs9151::arith;
use crate::iqs9151::buttons::{
    self,
    TrackpadButton,
    TrackpadButtonEvents,
    TrackpadButtonState,
    TrackpadClickEvents,
    TrackpadSide,
};
use crate::iqs9151::frame::{self, cursor_motion_detected, CoordinateFrame};
use crate::iqs9151::gesture::{self, TrackpadGestureConfig, TrackpadGestureEvent, TrackpadGestureRecognizer};
use crate::iqs9151::inertia::{
    self,
    cursor_inertia_config,
    ScrollInertiaState,
    ScrollMotionHistory,
};
use crate::iqs9151::motion::{
    self,
    fixed_point_to_i16_rounded,
    pinch_wheel_to_motion,
    smooth_scroll_axis,
    TrackpadMotionConfig,
    TrackpadMotionEvent,
    TrackpadPinchReport,
    TrackpadScrollConfig,
    TrackpadScrollDelta,
    SCROLL_SMOOTHING_FP_SHIFT,
};
use crate::rmk::{self, Event, EventView, KeyboardEvent};

verus! {

/// Milliseconds between sensor polls by default.
pub const DEFAULT_POLL_INTERVAL_MS: u64 = 10;

/// Cursor release inertia is on by default.
pub const DEFAULT_CURSOR_INERTIA_ENABLED: bool = true;

/// Milliseconds to wait after each sent cursor motion by default: none, so
/// continuous cursor motion is not throttled.
pub const DEFAULT_MOTION_INTERVAL_MS: u64 = 0;

/// Failed initialisations after which the device runs degraded.
pub const MAX_INIT_FAILURES_BEFORE_DEGRADED: u8 = 3;

/// Consecutive read errors after which the sensor is initialised again.
pub const MAX_RUNTIME_READ_ERRORS: u8 = 8;

/// Milliseconds between diagnostic nudges while degraded.
pub const DIAGNOSTIC_NUDGE_INTERVAL_MS: u32 = 2000;

/// Cursor distance of a diagnostic nudge.
pub const DIAGNOSTIC_NUDGE_DELTA: i16 = 8;

/// How trackpad motion leaves the device: as custom events to the keyboard,
/// directly as HID mouse reports, or as split events from a peripheral.
#[derive(Clone, Copy, Debug, PartialEq, Eq, Structural)]
pub enum Iqs9151MotionOutput {
    RmkEvent,
    HidReport,
    SplitEvent,
}

/// Cursor remainders, motion history and inertia.
#[derive(Clone, Copy, Debug)]
pub struct CursorRuntime {
    pub remainder_x: i32,
    pub remainder_y: i32,
    pub history: ScrollMotionHistory,
    pub inertia: ScrollInertiaState,
    pub inertia_enabled: bool,
}

/// Scroll remainders, smoothing filter, history and inertia.
#[derive(Clone, Copy, Debug)]
pub struct ScrollRuntime {
    pub remainder_x: i32,
    pub remainder_y: i32,
    pub smooth_x_fp: i32,
    pub smooth_y_fp: i32,
    pub history: ScrollMotionHistory,
    pub inertia: ScrollInertiaState,
}

/// Held mouse buttons, virtual key buttons and queued key and pinch events.
#[derive(Clone, Copy, Debug)]
pub struct ButtonRuntime {
    pub pointer_buttons: u8,
    pub virtual_buttons: TrackpadButtonState,
    pub pending_virtual_buttons: Option<TrackpadButtonEvents>,
    pub pending_click: Option<TrackpadClickEvents>,
    pub pinch_pressed: bool,
    pub pending_pinch_report: Option<TrackpadPinchReport>,
}

/// Sensor start-up and error bookkeeping.
#[derive(Clone, Copy, Debug, PartialEq, Eq, Structural)]
pub struct HealthRuntime {
    pub initialized: bool,
    pub init_failure_count: u8,
    pub read_error_count: u8,
    pub degraded_mode: bool,
    pub diagnostic_motion_last_ms: u32,
    pub diagnostic_motion_sign: i16,
}

/// Everything the trackpad device decides with, apart from the bus and the
/// ready pin.
#[derive(Clone, Copy, Debug)]
pub struct TrackpadRuntime {
    pub side: TrackpadSide,
    pub motion_output: Iqs9151MotionOutput,
    pub recognizer: TrackpadGestureRecognizer,
    pub motion_config: TrackpadMotionConfig,
    pub scroll_config: TrackpadScrollConfig,
    pub cursor: CursorRuntime,
    pub scroll: ScrollRuntime,
    pub buttons: ButtonRuntime,
    pub pending_motion: Option<TrackpadMotionEvent>,
    pub last_finger_count: u8,
    pub poll_interval_ms: u64,
    pub motion_interval_ms: Option<u64>,
    pub health: HealthRuntime,
}

type Rt = TrackpadRuntime;

/// The runtime's invariant: the recognizer and both histories are well
/// formed, and the diagnostic nudge direction is a unit.
pub open spec fn rt_wf(s: Rt) -> bool {
    &&& gesture::rg_wf(s.recognizer)
    &&& inertia::history_wf(s.cursor.history)
    &&& inertia::history_wf(s.scroll.history)
    &&& (s.health.diagnostic_motion_sign == 1 || s.health.diagnostic_motion_sign == -1)
}

/// An empty motion history.
pub open spec fn history_empty(h: ScrollMotionHistory) -> bool {
    inertia::history_wf(h) && h@ == Seq::<inertia::ScrollMotionSample>::empty()
}

/// The event a motion becomes when it is handed to the keyboard.
pub open spec fn motion_view(m: TrackpadMotionEvent) -> EventView {
    EventView::Custom(motion::motion_payload(m))
}

/// The key event of a button edge.
pub open spec fn button_event_view(e: buttons::TrackpadButtonEvent) -> EventView {
    EventView::Key(KeyboardEvent { row: e.position.row, col: e.position.col, pressed: e.pressed })
}

// ---------------------------------------------------------------- motion output

/// Handing a motion on: it gets the held mouse buttons and is capped; then it
/// becomes an event for the keyboard, or, for the other outputs, a motion to
/// send.
pub open spec fn rt_handle_motion(s: Rt, m: TrackpadMotionEvent) -> (Option<EventView>, Seq<TrackpadMotionEvent>) {
    let m2 = motion::capped_spec(TrackpadMotionEvent { buttons: s.buttons.pointer_buttons, button_state_valid: true, ..m });
    match s.motion_output {
        Iqs9151MotionOutput::RmkEvent => (Some(motion_view(m2)), Seq::empty()),
        _ => (None, seq![m2]),
    }
}

/// The pending motion after a send of `m` failed: merged into what is
/// pending, or `m` capped when nothing was.
pub open spec fn queued_spec(pending: Option<TrackpadMotionEvent>, m: TrackpadMotionEvent) -> Option<TrackpadMotionEvent> {
    match pending {
        Some(p) => Some(motion::merge_spec(p, m)),
        None => Some(motion::capped_spec(m)),
    }
}

/// Releasing the held mouse buttons: when any are held they are cleared and
/// an all-released button state goes out (kept pending for the keyboard
/// output, sent otherwise).
pub open spec fn rt_release_pointer(s: Rt) -> (Rt, Seq<TrackpadMotionEvent>) {
    if s.buttons.pointer_buttons == 0 {
        (s, Seq::empty())
    } else {
        let m = motion::button_state_spec(s.side, 0);
        let s1 = Rt { buttons: ButtonRuntime { pointer_buttons: 0, ..s.buttons }, ..s };
        if s.motion_output == Iqs9151MotionOutput::RmkEvent {
            (Rt { pending_motion: Some(m), ..s1 }, Seq::empty())
        } else {
            (s1, seq![m])
        }
    }
}

/// Releasing the virtual key buttons: when any are pressed, their release
/// edges are queued.
pub open spec fn rt_release_virtual(s: Rt) -> Rt {
    if s.buttons.virtual_buttons.pressed_bits == 0 {
        s
    } else {
        Rt {
            buttons: ButtonRuntime {
                virtual_buttons: TrackpadButtonState { pressed_bits: 0, ..s.buttons.virtual_buttons },
                pending_virtual_buttons: Some(
                    TrackpadButtonEvents {
                        side: s.buttons.virtual_buttons.side,
                        changed_bits: s.buttons.virtual_buttons.pressed_bits ^ 0u8,
                        pressed_bits: 0,
                        next_code: 0,
                    },
                ),
                ..s.buttons
            },
            ..s
        }
    }
}

/// Releasing a held pinch: queue a pinch report that ends it.
pub open spec fn rt_release_pinch(s: Rt) -> Rt {
    if !s.buttons.pinch_pressed {
        s
    } else {
        Rt {
            buttons: ButtonRuntime {
                pinch_pressed: false,
                pending_pinch_report: Some(
                    TrackpadPinchReport { side: s.side, started: false, ended: true, motion: motion::scroll_spec(s.side, 0, 0) },
                ),
                ..s.buttons
            },
            ..s
        }
    }
}


/// The cursor runtime forgotten: no remainders, history or fling, and no
/// finger seen.
pub open spec fn rt_reset_cursor(s: Rt) -> Rt {
    Rt {
        cursor: CursorRuntime {
            remainder_x: 0,
            remainder_y: 0,
            history: inertia::history_new_spec(),
            inertia: inertia::inertia_idle(),
            ..s.cursor
        },
        last_finger_count: 0,
        ..s
    }
}

/// The scroll runtime forgotten: no remainders, smoothing, history or fling.
pub open spec fn rt_reset_scroll(s: Rt) -> Rt {
    Rt {
        scroll: ScrollRuntime {
            remainder_x: 0,
            remainder_y: 0,
            smooth_x_fp: 0,
            smooth_y_fp: 0,
            history: inertia::history_new_spec(),
            inertia: inertia::inertia_idle(),
        },
        ..s
    }
}

/// Everything about the current touch forgotten after a sensor reset or
/// error: the pending motion (when asked), a held pinch, held mouse buttons
/// and virtual buttons are released, and the recognizer, cursor and scroll
/// runtimes start over.
#[verifier::opaque]
pub open spec fn rt_reset_sensor(s: Rt, clear_pending: bool) -> (Rt, Seq<TrackpadMotionEvent>) {
    let s0 = if clear_pending {
        Rt { pending_motion: None, ..s }
    } else {
        s
    };
    let s1 = rt_release_pinch(s0);
    let (s2, sends) = rt_release_pointer(s1);
    let s3 = rt_release_virtual(s2);
    let s4 = Rt { recognizer: gesture::rg_new(s3.recognizer.config), ..s3 };
    (rt_reset_scroll(rt_reset_cursor(s4)), sends)
}

/// A diagnostic nudge: at most every two seconds, a small cursor step that
/// alternates direction, handed on like any motion (its keyboard event is
/// dropped).
pub open spec fn rt_nudge(s: Rt, now: u32) -> (Rt, Seq<TrackpadMotionEvent>) {
    if arith::elapsed_spec(now, s.health.diagnostic_motion_last_ms) < DIAGNOSTIC_NUDGE_INTERVAL_MS {
        (s, Seq::empty())
    } else {
        let m = TrackpadMotionEvent {
            side: s.side,
            x: arith::sat_i16(DIAGNOSTIC_NUDGE_DELTA * s.health.diagnostic_motion_sign),
            y: 0,
            wheel: 0,
            pan: 0,
            buttons: 0,
            button_state_valid: false,
        };
        let s1 = Rt {
            health: HealthRuntime {
                diagnostic_motion_last_ms: now,
                diagnostic_motion_sign: (-s.health.diagnostic_motion_sign) as i16,
                ..s.health
            },
            ..s
        };
        (s1, rt_handle_motion(s1, m).1)
    }
}


/// The cursor motion a frame gives: only a one-finger frame with the
/// movement flag set moves the cursor, through the cursor configuration and
/// its remainders.
pub open spec fn rt_motion_from_frame(s: Rt, f: CoordinateFrame) -> (Rt, Option<TrackpadMotionEvent>) {
    if !(frame::finger_count_spec(f) == 1 && frame::movement_spec(f)) {
        (s, None)
    } else {
        let (m, rx, ry) = motion::motion_event_spec(
            s.motion_config,
            s.side,
            f.relative_x,
            f.relative_y,
            s.cursor.remainder_x,
            s.cursor.remainder_y,
        );
        (Rt { cursor: CursorRuntime { remainder_x: rx, remainder_y: ry, ..s.cursor }, ..s }, m)
    }
}

/// A scroll delta through the active scroll limits, then handed on.
pub open spec fn rt_handle_scroll(s: Rt, d: TrackpadScrollDelta, inertial: bool) -> (Rt, Option<EventView>, Seq<TrackpadMotionEvent>) {
    let c = s.scroll_config;
    let (m, rx, ry) = if inertial {
        motion::scroll_limits_spec(s.side, d.x, d.y, s.scroll.remainder_x, s.scroll.remainder_y, c.inertia_divisor, c.inertia_divisor, 0, c.inertia_max_step)
    } else {
        motion::scroll_limits_spec(s.side, d.x, d.y, s.scroll.remainder_x, s.scroll.remainder_y, c.divisor, c.low_speed_divisor, c.low_speed_threshold, c.max_step)
    };
    let s1 = Rt { scroll: ScrollRuntime { remainder_x: rx, remainder_y: ry, ..s.scroll }, ..s };
    match m {
        Some(m) => (s1, rt_handle_motion(s1, m).0, rt_handle_motion(s1, m).1),
        None => (s1, None, Seq::empty()),
    }
}

/// A pinch report event: starting a pinch forgets the scroll runtime; the
/// report carries the wheel step (or an empty scroll); a report that neither
/// starts nor ends the pinch and carries no motion is dropped; otherwise the
/// held-pinch flag follows the report.
#[verifier::opaque]
pub open spec fn rt_pinch_event(s: Rt, started: bool, ended: bool, wheel: i16) -> (Rt, Option<EventView>) {
    let s1 = if started {
        rt_reset_scroll(s)
    } else {
        s
    };
    let m = match motion::pinch_motion_spec(s.side, wheel) {
        Some(m) => m,
        None => motion::scroll_spec(s.side, 0, 0),
    };
    if !started && !ended && motion::motion_empty(m) {
        (s1, None)
    } else {
        let pressed = if ended {
            false
        } else if started {
            true
        } else {
            s1.buttons.pinch_pressed
        };
        (
            Rt { buttons: ButtonRuntime { pinch_pressed: pressed, ..s1.buttons }, ..s1 },
            Some(EventView::Custom(motion::pinch_payload(TrackpadPinchReport { side: s.side, started, ended, motion: m }))),
        )
    }
}

/// Remembering a cursor motion for inertia: a moving one stops any cursor
/// fling and joins the history.
pub open spec fn rt_record_cursor(s: Rt, m: TrackpadMotionEvent, now: u32) -> Rt {
    if m.x == 0 && m.y == 0 {
        s
    } else {
        Rt {
            cursor: CursorRuntime {
                inertia: inertia::inertia_idle(),
                history: inertia::history_push_value(s.cursor.history, TrackpadScrollDelta { x: m.x, y: m.y }, now),
                ..s.cursor
            },
            ..s
        }
    }
}

/// Lifting the finger after cursor motion: with cursor inertia enabled, the
/// remainders are dropped and a fling starts when the history supports one;
/// either way the history is forgotten (and, when disabled, any fling too).
pub open spec fn rt_start_cursor_inertia(s: Rt, now: u32) -> Rt {
    if !s.cursor.inertia_enabled {
        Rt { cursor: CursorRuntime { history: inertia::history_new_spec(), inertia: inertia::inertia_idle(), ..s.cursor }, ..s }
    } else {
        let cfg = inertia::cursor_inertia_config_spec();
        let fling = match inertia::seed_spec(s.cursor.history@, now, cfg) {
            Some(seed) => inertia::inertia_start_spec(seed, now, cfg),
            None => s.cursor.inertia,
        };
        Rt {
            cursor: CursorRuntime {
                remainder_x: 0,
                remainder_y: 0,
                history: inertia::history_new_spec(),
                inertia: fling,
                ..s.cursor
            },
            ..s
        }
    }
}

/// A cursor fling step at `now`, handed on as cursor motion.
pub open spec fn rt_flush_cursor_inertia(s: Rt, now: u32) -> (Rt, Option<EventView>, Seq<TrackpadMotionEvent>) {
    let (fling, d) = inertia::inertia_step_spec(s.cursor.inertia, now, inertia::cursor_inertia_config_spec());
    let s1 = Rt { cursor: CursorRuntime { inertia: fling, ..s.cursor }, ..s };
    match d {
        Some(d) => (s1, rt_handle_motion(s1, motion::cursor_spec(s.side, d.x, d.y)).0, rt_handle_motion(s1, motion::cursor_spec(s.side, d.x, d.y)).1),
        None => (s1, None, Seq::empty()),
    }
}

/// A scroll fling step at `now`, handed on through the inertia scroll limits.
pub open spec fn rt_flush_scroll_inertia(s: Rt, now: u32) -> (Rt, Option<EventView>, Seq<TrackpadMotionEvent>) {
    let (fling, d) = inertia::inertia_step_spec(s.scroll.inertia, now, inertia::scroll_inertia_config_spec());
    let s1 = Rt { scroll: ScrollRuntime { inertia: fling, ..s.scroll }, ..s };
    match d {
        Some(d) => rt_handle_scroll(s1, d, true),
        None => (s1, None, Seq::empty()),
    }
}

/// A two-finger scroll step: both flings stop and the cursor history is
/// forgotten; a zero step just resets the smoothing; otherwise the smoothed
/// step joins the scroll history and is handed on.
#[verifier::opaque]
pub open spec fn rt_record_active_scroll(s: Rt, d: TrackpadScrollDelta, now: u32) -> (Rt, Option<EventView>, Seq<TrackpadMotionEvent>) {
    let s1 = Rt {
        scroll: ScrollRuntime { inertia: inertia::inertia_idle(), ..s.scroll },
        cursor: CursorRuntime { history: inertia::history_new_spec(), inertia: inertia::inertia_idle(), ..s.cursor },
        ..s
    };
    if d.x == 0 && d.y == 0 {
        (Rt { scroll: ScrollRuntime { smooth_x_fp: 0, smooth_y_fp: 0, ..s1.scroll }, ..s1 }, None, Seq::empty())
    } else {
        let sx = motion::smooth_spec(s1.scroll.smooth_x_fp, d.x) as i32;
        let sy = motion::smooth_spec(s1.scroll.smooth_y_fp, d.y) as i32;
        let d2 = TrackpadScrollDelta { x: motion::round_fp_spec(sx, 8) as i16, y: motion::round_fp_spec(sy, 8) as i16 };
        let s2 = Rt {
            scroll: ScrollRuntime {
                smooth_x_fp: sx,
                smooth_y_fp: sy,
                history: inertia::history_push_value(s1.scroll.history, d2, now),
                ..s1.scroll
            },
            ..s1
        };
        rt_handle_scroll(s2, d2, false)
    }
}

/// The fingers left a scroll: remainders and smoothing are dropped, a fling
/// starts when the history supports one, and the history is forgotten.
pub open spec fn rt_start_scroll_inertia(s: Rt, now: u32) -> Rt {
    let cfg = inertia::scroll_inertia_config_spec();
    let fling = match inertia::seed_spec(s.scroll.history@, now, cfg) {
        Some(seed) => inertia::inertia_start_spec(seed, now, cfg),
        None => s.scroll.inertia,
    };
    Rt {
        scroll: ScrollRuntime {
            remainder_x: 0,
            remainder_y: 0,
            smooth_x_fp: 0,
            smooth_y_fp: 0,
            history: inertia::history_new_spec(),
            inertia: fling,
        },
        ..s
    }
}

/// A mouse button edge: the held-button mask changes and the new button
/// state is handed on.
pub open spec fn rt_pointer_button(s: Rt, b: TrackpadButton, pressed: bool) -> (Rt, Option<EventView>, Seq<TrackpadMotionEvent>) {
    match buttons::mouse_mask_spec(b) {
        None => (s, None, Seq::empty()),
        Some(mask) => {
            let held = if pressed {
                s.buttons.pointer_buttons | mask
            } else {
                s.buttons.pointer_buttons & !mask
            };
            let s1 = Rt { buttons: ButtonRuntime { pointer_buttons: held, ..s.buttons }, ..s };
            let m = motion::button_state_spec(s.side, held);
            (s1, rt_handle_motion(s1, m).0, rt_handle_motion(s1, m).1)
        },
    }
}

/// A virtual key button edge: the pressed mask changes, the first resulting
/// key edge is returned and the rest are queued.
pub open spec fn rt_virtual_button(s: Rt, b: TrackpadButton, pressed: bool) -> (Rt, Option<EventView>) {
    let bits = s.buttons.virtual_buttons.pressed_bits;
    let next_bits = if pressed {
        bits | buttons::bit_of_code(buttons::button_code(b))
    } else {
        bits & !buttons::bit_of_code(buttons::button_code(b))
    };
    let events = TrackpadButtonEvents {
        side: s.buttons.virtual_buttons.side,
        changed_bits: bits ^ next_bits,
        pressed_bits: next_bits,
        next_code: 0,
    };
    let (rest, first) = buttons::events_next_spec(events);
    (Rt {
        buttons: ButtonRuntime {
            virtual_buttons: TrackpadButtonState { pressed_bits: next_bits, ..s.buttons.virtual_buttons },
            pending_virtual_buttons: Some(rest),
            ..s.buttons
        },
        ..s
    }, match first {
        Some(e) => Some(button_event_view(e)),
        None => None,
    })
}

/// A button edge: mouse buttons go out as button state, the others as key edges.
pub open spec fn rt_trackpad_button(s: Rt, b: TrackpadButton, pressed: bool) -> (Rt, Option<EventView>, Seq<TrackpadMotionEvent>) {
    if buttons::mouse_mask_spec(b) is None {
        (rt_virtual_button(s, b, pressed).0, rt_virtual_button(s, b, pressed).1, Seq::empty())
    } else {
        rt_pointer_button(s, b, pressed)
    }
}

/// The next queued virtual key edge, if any (an exhausted queue is dropped).
pub open spec fn rt_flush_virtual(s: Rt) -> (Rt, Option<EventView>) {
    match s.buttons.pending_virtual_buttons {
        Some(events) => {
            let (rest, e) = buttons::events_next_spec(events);
            match e {
                Some(e) => (Rt { buttons: ButtonRuntime { pending_virtual_buttons: Some(rest), ..s.buttons }, ..s }, Some(button_event_view(e))),
                None => (Rt { buttons: ButtonRuntime { pending_virtual_buttons: None, ..s.buttons }, ..s }, None),
            }
        },
        None => (s, None),
    }
}

/// The end of a frame: when the fingers have left, a one-finger cursor touch
/// may start cursor inertia, the cursor remainders are dropped and so are the
/// scroll remainders unless a scroll fling runs; with two or more fingers the
/// cursor history and fling are forgotten; the finger count is remembered.
#[verifier::opaque]
pub open spec fn rt_finish(s: Rt, prev: u8, cur: u8, now: u32, allow_cursor_inertia: bool) -> Rt {
    let s1 = if cur == 0 {
        let a = if allow_cursor_inertia && prev == 1 && !s.recognizer.suppress_cursor_tail {
            rt_start_cursor_inertia(s, now)
        } else {
            s
        };
        let b = Rt { cursor: CursorRuntime { remainder_x: 0, remainder_y: 0, ..a.cursor }, ..a };
        if !b.scroll.inertia.active {
            Rt { scroll: ScrollRuntime { remainder_x: 0, remainder_y: 0, ..b.scroll }, ..b }
        } else {
            b
        }
    } else if cur >= 2 {
        Rt { cursor: CursorRuntime { history: inertia::history_new_spec(), inertia: inertia::inertia_idle(), ..s.cursor }, ..s }
    } else {
        s
    };
    Rt { last_finger_count: cur, ..s1 }
}

/// The next queued key or pinch event: virtual key edges first, then a
/// pending pinch report, then a tap's press and release.
#[verifier::opaque]
pub open spec fn rt_next_queued(s: Rt) -> (Rt, Option<EventView>) {
    let (s1, e) = rt_flush_virtual(s);
    if e is Some {
        (s1, e)
    } else {
        match s1.buttons.pending_pinch_report {
            Some(r) => (
                Rt { buttons: ButtonRuntime { pending_pinch_report: None, ..s1.buttons }, ..s1 },
                Some(EventView::Custom(motion::pinch_payload(r))),
            ),
            None => match s1.buttons.pending_click {
                Some(c) => {
                    let (c2, ev) = buttons::click_next_spec(c);
                    match ev {
                        Some(ev) => (Rt { buttons: ButtonRuntime { pending_click: Some(c2), ..s1.buttons }, ..s1 }, Some(button_event_view(ev))),
                        None => (Rt { buttons: ButtonRuntime { pending_click: None, ..s1.buttons }, ..s1 }, None),
                    }
                },
                None => (s1, None),
            },
        }
    }
}


/// What the read loop does after a frame.
#[derive(Clone, Copy, Debug, PartialEq, Eq)]
pub enum FrameOutcome {
    /// Hand this event to the keyboard.
    Emit(Event),
    /// Read the sensor again at once.
    ReadAgain,
    /// Wait the motion interval, then read again.
    WaitMotionInterval,
    /// Sleep the poll interval, then read again.
    Sleep,
}

/// A frame outcome as a value.
pub enum FrameOutcomeView {
    Emit(EventView),
    ReadAgain,
    WaitMotionInterval,
    Sleep,
}

impl View for FrameOutcome {
    type V = FrameOutcomeView;

    open spec fn view(&self) -> FrameOutcomeView {
        match self {
            FrameOutcome::Emit(e) => FrameOutcomeView::Emit(e@),
            FrameOutcome::ReadAgain => FrameOutcomeView::ReadAgain,
            FrameOutcome::WaitMotionInterval => FrameOutcomeView::WaitMotionInterval,
            FrameOutcome::Sleep => FrameOutcomeView::Sleep,
        }
    }
}

/// What the read loop does after a failed initialisation.
#[derive(Clone, Copy, Debug, PartialEq, Eq, Structural)]
pub enum InitOutcome {
    /// Go on at once (the device now runs degraded).
    Continue,
    /// Sleep the poll interval and try again.
    Sleep,
}

/// An event to emit, or reading on, after the frame is finished.
pub open spec fn emit_or(e: Option<EventView>, otherwise: FrameOutcomeView) -> FrameOutcomeView {
    match e {
        Some(ev) => FrameOutcomeView::Emit(ev),
        None => otherwise,
    }
}

/// A gesture's effect on the runtime for the frame it came from.
#[verifier::opaque]
pub open spec fn rt_gesture(s: Rt, g: TrackpadGestureEvent, prev: u8, cur: u8, now: u32) -> (Rt, FrameOutcomeView, Seq<TrackpadMotionEvent>) {
    match g {
        TrackpadGestureEvent::Button { button, pressed } => if button == TrackpadButton::Pinch {
            let (s1, e) = rt_pinch_event(s, false, !pressed, 0);
            (rt_finish(s1, prev, cur, now, false), emit_or(e, FrameOutcomeView::ReadAgain), Seq::empty())
        } else {
            let (s1, e, sends) = rt_trackpad_button(s, button, pressed);
            (rt_finish(s1, prev, cur, now, false), emit_or(e, FrameOutcomeView::ReadAgain), sends)
        },
        TrackpadGestureEvent::Click(b) => {
            let s1 = Rt { buttons: ButtonRuntime { pending_click: Some(TrackpadClickEvents { side: s.side, button: b, next_pressed: 0 }), ..s.buttons }, ..s };
            (rt_finish(s1, prev, cur, now, false), FrameOutcomeView::ReadAgain, Seq::empty())
        },
        TrackpadGestureEvent::ReleaseAndClick(b) => {
            let s1 = Rt { buttons: ButtonRuntime { pending_click: Some(TrackpadClickEvents { side: s.side, button: b, next_pressed: 0 }), ..s.buttons }, ..s };
            let (s2, e, sends) = rt_trackpad_button(s1, b, false);
            (rt_finish(s2, prev, cur, now, false), emit_or(e, FrameOutcomeView::ReadAgain), sends)
        },
        TrackpadGestureEvent::Scroll(d) => {
            let (s1, e, sends) = rt_record_active_scroll(s, d, now);
            (rt_finish(s1, prev, cur, now, false), emit_or(e, FrameOutcomeView::ReadAgain), sends)
        },
        TrackpadGestureEvent::ScrollEnded => (rt_finish(rt_start_scroll_inertia(s, now), prev, cur, now, false), FrameOutcomeView::ReadAgain, Seq::empty()),
        TrackpadGestureEvent::PinchStarted(w) => {
            let s1 = Rt { scroll: ScrollRuntime { inertia: inertia::inertia_idle(), history: inertia::history_new_spec(), ..s.scroll }, ..s };
            let (s2, e) = rt_pinch_event(s1, true, false, w);
            (rt_finish(s2, prev, cur, now, false), emit_or(e, FrameOutcomeView::ReadAgain), Seq::empty())
        },
        TrackpadGestureEvent::PinchWheel(w) => {
            let s1 = Rt { scroll: ScrollRuntime { inertia: inertia::inertia_idle(), history: inertia::history_new_spec(), ..s.scroll }, ..s };
            let (s2, e) = rt_pinch_event(s1, false, false, w);
            (rt_finish(s2, prev, cur, now, false), emit_or(e, FrameOutcomeView::ReadAgain), Seq::empty())
        },
        TrackpadGestureEvent::DeferredHoldPending => (rt_finish(s, prev, cur, now, false), FrameOutcomeView::ReadAgain, Seq::empty()),
    }
}

/// A frame without a gesture: unless the cursor is suppressed, its motion
/// (if any) is remembered and handed on; a frame that moved the cursor reads
/// on (after the motion interval, when one is set) and any other sleeps.
#[verifier::opaque]
pub open spec fn rt_cursor_frame(s: Rt, f: CoordinateFrame, prev: u8, cur: u8, now: u32) -> (Rt, FrameOutcomeView, Seq<TrackpadMotionEvent>) {
    if !s.recognizer.suppress_cursor_tail {
        let (s1, m) = rt_motion_from_frame(s, f);
        match m {
            Some(m) => {
                let s2 = rt_record_cursor(s1, m, now);
                let (e, sends) = rt_handle_motion(s2, m);
                (rt_finish(s2, prev, cur, now, true), emit_or(e, if s2.motion_interval_ms is Some {
                    FrameOutcomeView::WaitMotionInterval
                } else {
                    FrameOutcomeView::ReadAgain
                }), sends)
            },
            None => (rt_finish(s1, prev, cur, now, true), FrameOutcomeView::Sleep, Seq::empty()),
        }
    } else {
        (rt_finish(s, prev, cur, now, true), FrameOutcomeView::Sleep, Seq::empty())
    }
}

/// A frame read at `now`: the read-error count clears; a sensor reset
/// forgets the touch and asks for initialisation again; otherwise a touch
/// stops both flings, a new one-finger touch forgets the cursor history,
/// and the recognizer's gesture, or else the cursor motion, is handled.
#[verifier::opaque]
pub open spec fn rt_frame(s: Rt, f: CoordinateFrame, now: u32) -> (Rt, FrameOutcomeView, Seq<TrackpadMotionEvent>) {
    let s0 = Rt { health: HealthRuntime { read_error_count: 0, ..s.health }, ..s };
    if frame::show_reset_spec(f) {
        let (s1, sends) = rt_reset_sensor(s0, true);
        (Rt { health: HealthRuntime { initialized: false, degraded_mode: false, ..s1.health }, ..s1 }, FrameOutcomeView::ReadAgain, sends)
    } else {
        let prev = s0.last_finger_count;
        let cur = frame::finger_count_spec(f);
        let s1 = if cur > 0 {
            Rt {
                scroll: ScrollRuntime { inertia: inertia::inertia_idle(), ..s0.scroll },
                cursor: CursorRuntime { inertia: inertia::inertia_idle(), ..s0.cursor },
                ..s0
            }
        } else {
            s0
        };
        let s2 = if prev == 0 && cur == 1 {
            Rt { cursor: CursorRuntime { history: inertia::history_new_spec(), ..s1.cursor }, ..s1 }
        } else {
            s1
        };
        let (rg, g) = gesture::rg_update(s2.recognizer, f, now);
        let s3 = Rt { recognizer: rg, ..s2 };
        match g {
            Some(g) => rt_gesture(s3, g, prev, cur, now),
            None => rt_cursor_frame(s3, f, prev, cur, now),
        }
    }
}

/// A failed frame read at `now`: the error is counted and the touch
/// forgotten; enough errors in a row ask for initialisation again, and a
/// degraded device nudges the cursor instead.
#[verifier::opaque]
pub open spec fn rt_read_failed(s: Rt, now: u32) -> (Rt, Seq<TrackpadMotionEvent>) {
    let count: u8 = if s.health.read_error_count == 255 {
        255
    } else {
        (s.health.read_error_count + 1) as u8
    };
    let s0 = Rt { health: HealthRuntime { read_error_count: count, ..s.health }, ..s };
    let (s1, sends1) = rt_reset_sensor(s0, false);
    if count >= MAX_RUNTIME_READ_ERRORS {
        (Rt { health: HealthRuntime { initialized: false, degraded_mode: false, read_error_count: 0, ..s1.health }, ..s1 }, sends1)
    } else if s1.health.degraded_mode {
        let (s2, sends2) = rt_nudge(s1, now);
        (s2, sends1 + sends2)
    } else {
        (s1, sends1)
    }
}

/// A failed initialisation at `now`: the failure is counted, the touch is
/// forgotten (pending motion too) and the cursor nudged; after enough
/// failures the device gives up and runs degraded, else it sleeps and retries.
#[verifier::opaque]
pub open spec fn rt_init_failed(s: Rt, now: u32) -> (Rt, InitOutcome, Seq<TrackpadMotionEvent>) {
    let count: u8 = if s.health.init_failure_count == 255 {
        255
    } else {
        (s.health.init_failure_count + 1) as u8
    };
    let s0 = Rt { health: HealthRuntime { init_failure_count: count, ..s.health }, ..s };
    let (s1, sends1) = rt_reset_sensor(s0, true);
    let (s2, sends2) = rt_nudge(s1, now);
    if count >= MAX_INIT_FAILURES_BEFORE_DEGRADED {
        (Rt { health: HealthRuntime { initialized: true, degraded_mode: true, read_error_count: 0, ..s2.health }, ..s2 }, InitOutcome::Continue, sends1 + sends2)
    } else {
        (s2, InitOutcome::Sleep, sends1 + sends2)
    }
}

/// The default wait after cursor motion: none when the default is zero.
pub fn default_motion_interval() -> (r: Option<u64>)
    ensures
        r == if DEFAULT_MOTION_INTERVAL_MS == 0 {
            None
        } else {
            Some(DEFAULT_MOTION_INTERVAL_MS)
        },
{
    if DEFAULT_MOTION_INTERVAL_MS == 0 {
        None
    } else {
        Some(DEFAULT_MOTION_INTERVAL_MS)
    }
}

impl TrackpadRuntime {
    /// A runtime for one side that has not initialised its sensor yet, with
    /// the default configurations and motion handed to the keyboard.
    pub fn new(side: TrackpadSide) -> (r: Self)
        ensures
            rt_wf(r),
            r.side == side,
            r.motion_output == Iqs9151MotionOutput::RmkEvent,
            r.recognizer == gesture::rg_new(gesture::default_gesture_config()),
            r.motion_config == motion::default_motion_config_spec(),
            r.scroll_config == motion::default_scroll_config_spec(),
            r.cursor.remainder_x == 0 && r.cursor.remainder_y == 0,
            history_empty(r.cursor.history),
            r.cursor.inertia == inertia::inertia_idle(),
            r.cursor.inertia_enabled == DEFAULT_CURSOR_INERTIA_ENABLED,
            r.scroll.remainder_x == 0 && r.scroll.remainder_y == 0,
            r.scroll.smooth_x_fp == 0 && r.scroll.smooth_y_fp == 0,
            history_empty(r.scroll.history),
            r.scroll.inertia == inertia::inertia_idle(),
            r.buttons.pointer_buttons == 0,
            r.buttons.virtual_buttons == (TrackpadButtonState { side, pressed_bits: 0 }),
            r.buttons.pending_virtual_buttons is None,
            r.buttons.pending_click is None,
            !r.buttons.pinch_pressed,
            r.buttons.pending_pinch_report is None,
            r.pending_motion is None,
            r.last_finger_count == 0,
            r.poll_interval_ms == DEFAULT_POLL_INTERVAL_MS,
            r.motion_interval_ms is None,
            r.health == (HealthRuntime {
                initialized: false,
                init_failure_count: 0,
                read_error_count: 0,
                degraded_mode: false,
                diagnostic_motion_last_ms: 0,
                diagnostic_motion_sign: 1,
            }),
    {
        TrackpadRuntime {
            side,
            motion_output: Iqs9151MotionOutput::RmkEvent,
            recognizer: TrackpadGestureRecognizer::with_defaults(),
            motion_config: TrackpadMotionConfig::default(),
            scroll_config: TrackpadScrollConfig::default(),
            cursor: CursorRuntime {
                remainder_x: 0,
                remainder_y: 0,
                history: ScrollMotionHistory::new(),
                inertia: ScrollInertiaState::new(),
                inertia_enabled: DEFAULT_CURSOR_INERTIA_ENABLED,
            },
            scroll: ScrollRuntime {
                remainder_x: 0,
                remainder_y: 0,
                smooth_x_fp: 0,
                smooth_y_fp: 0,
                history: ScrollMotionHistory::new(),
                inertia: ScrollInertiaState::new(),
            },
            buttons: ButtonRuntime {
                pointer_buttons: 0,
                virtual_buttons: TrackpadButtonState::new(side),
                pending_virtual_buttons: None,
                pending_click: None,
                pinch_pressed: false,
                pending_pinch_report: None,
            },
            pending_motion: None,
            last_finger_count: 0,
            poll_interval_ms: DEFAULT_POLL_INTERVAL_MS,
            motion_interval_ms: default_motion_interval(),
            health: HealthRuntime {
                initialized: false,
                init_failure_count: 0,
                read_error_count: 0,
                degraded_mode: false,
                diagnostic_motion_last_ms: 0,
                diagnostic_motion_sign: 1,
            },
        }
    }

    fn handle_motion(&self, motion: TrackpadMotionEvent, sends: &mut Vec<TrackpadMotionEvent>) -> (r: Option<Event>)
        ensures
            rmk::opt_event_view(r) == rt_handle_motion(*self, motion).0,
            final(sends)@ == old(sends)@ + rt_handle_motion(*self, motion).1,
    {
        let motion = motion.with_button_state(self.buttons.pointer_buttons).capped();
        match self.motion_output {
            Iqs9151MotionOutput::RmkEvent => Some(motion.into_rmk_event()),
            _ => {
                sends.push(motion);
                proof {
                    assert(final(sends)@ =~= old(sends)@ + rt_handle_motion(*self, motion).1);
                }
                None
            },
        }
    }

    /// Merge a motion that could not be sent into the pending motion.
    pub fn queue_pending_motion(&mut self, motion: TrackpadMotionEvent)
        ensures
            *final(self) == (Rt { pending_motion: queued_spec(old(self).pending_motion, motion), ..*old(self) }),
    {
        self.pending_motion = Some(
            match self.pending_motion {
                Some(pending) => pending.merge(motion),
                None => motion.capped(),
            },
        );
    }

    /// The pending motion to try sending again, for the outputs that send.
    pub fn pending_motion_to_send(&self) -> (r: Option<TrackpadMotionEvent>)
        ensures
            r == if self.motion_output == Iqs9151MotionOutput::RmkEvent {
                None
            } else {
                self.pending_motion
            },
    {
        if self.motion_output == Iqs9151MotionOutput::RmkEvent {
            None
        } else {
            self.pending_motion
        }
    }

    /// The pending motion went out.
    pub fn pending_motion_sent(&mut self)
        ensures
            *final(self) == (Rt { pending_motion: None, ..*old(self) }),
    {
        self.pending_motion = None;
    }

    fn release_pointer_buttons(&mut self, sends: &mut Vec<TrackpadMotionEvent>)
        ensures
            *final(self) == rt_release_pointer(*old(self)).0,
            final(sends)@ == old(sends)@ + rt_release_pointer(*old(self)).1,
    {
        if self.buttons.pointer_buttons == 0 {
            proof {
                assert(final(sends)@ =~= old(sends)@ + rt_release_pointer(*old(self)).1);
            }
            return;
        }
        self.buttons.pointer_buttons = 0;
        let motion = TrackpadMotionEvent::button_state(self.side, 0);
        if self.motion_output == Iqs9151MotionOutput::RmkEvent {
            self.pending_motion = Some(motion);
            proof {
                assert(final(sends)@ =~= old(sends)@ + rt_release_pointer(*old(self)).1);
            }
        } else {
            sends.push(motion);
            proof {
                assert(final(sends)@ =~= old(sends)@ + rt_release_pointer(*old(self)).1);
            }
        }
    }

    fn release_virtual_buttons(&mut self)
        ensures
            *final(self) == rt_release_virtual(*old(self)),
    {
        if self.buttons.virtual_buttons.pressed_bits() == 0 {
            return;
        }
        let events = self.buttons.virtual_buttons.update(0);
        self.buttons.pending_virtual_buttons = Some(events);
    }

    fn release_pinch_report(&mut self)
        ensures
            *final(self) == rt_release_pinch(*old(self)),
    {
        if !self.buttons.pinch_pressed {
            return;
        }
        self.buttons.pinch_pressed = false;
        self.buttons.pending_pinch_report = Some(
            TrackpadPinchReport::new(self.side, false, true, TrackpadMotionEvent::scroll(self.side, 0, 0)),
        );
    }

    fn reset_cursor_runtime(&mut self)
        requires
            rt_wf(*old(self)),
        ensures
            *final(self) == rt_reset_cursor(*old(self)),
            rt_wf(*final(self)),
    {
        self.cursor.remainder_x = 0;
        self.cursor.remainder_y = 0;
        self.cursor.history.reset();
        self.cursor.inertia.reset();
        self.last_finger_count = 0;
    }

    fn reset_scroll_smoothing(&mut self)
        ensures
            *final(self) == (Rt { scroll: ScrollRuntime { smooth_x_fp: 0, smooth_y_fp: 0, ..old(self).scroll }, ..*old(self) }),
    {
        self.scroll.smooth_x_fp = 0;
        self.scroll.smooth_y_fp = 0;
    }

    fn reset_scroll_runtime(&mut self)
        requires
            rt_wf(*old(self)),
        ensures
            *final(self) == rt_reset_scroll(*old(self)),
            rt_wf(*final(self)),
    {
        self.scroll.remainder_x = 0;
        self.scroll.remainder_y = 0;
        self.reset_scroll_smoothing();
        self.scroll.history.reset();
        self.scroll.inertia.reset();
    }

    fn reset_sensor_runtime(&mut self, clear_pending_motion: bool, sends: &mut Vec<TrackpadMotionEvent>)
        requires
            rt_wf(*old(self)),
        ensures
            *final(self) == rt_reset_sensor(*old(self), clear_pending_motion).0,
            final(sends)@ == old(sends)@ + rt_reset_sensor(*old(self), clear_pending_motion).1,
            rt_wf(*final(self)),
            final(self).health == old(self).health,
    {
        proof {
            reveal(rt_reset_sensor);
            inertia::lemma_history_new_empty();
        }
        if clear_pending_motion {
            self.pending_motion = None;
        }
        self.release_pinch_report();
        self.release_pointer_buttons(sends);
        self.release_virtual_buttons();
        self.recognizer.reset();
        self.reset_cursor_runtime();
        self.reset_scroll_runtime();
    }

    fn send_diagnostic_nudge(&mut self, now_ms: u32, sends: &mut Vec<TrackpadMotionEvent>)
        requires
            rt_wf(*old(self)),
        ensures
            *final(self) == rt_nudge(*old(self), now_ms).0,
            final(sends)@ == old(sends)@ + rt_nudge(*old(self), now_ms).1,
            rt_wf(*final(self)),
    {
        if arith::elapsed_ms(now_ms, self.health.diagnostic_motion_last_ms) < DIAGNOSTIC_NUDGE_INTERVAL_MS {
            proof {
                assert(final(sends)@ =~= old(sends)@ + rt_nudge(*old(self), now_ms).1);
            }
            return;
        }
        self.health.diagnostic_motion_last_ms = now_ms;
        let motion = TrackpadMotionEvent {
            side: self.side,
            x: arith::sat_mul_i16(DIAGNOSTIC_NUDGE_DELTA, self.health.diagnostic_motion_sign),
            y: 0,
            wheel: 0,
            pan: 0,
            buttons: 0,
            button_state_valid: false,
        };
        self.health.diagnostic_motion_sign = -self.health.diagnostic_motion_sign;
        let _ = self.handle_motion(motion, sends);
    }

    fn motion_from_frame(&mut self, frame: CoordinateFrame) -> (r: Option<TrackpadMotionEvent>)
        requires
            rt_wf(*old(self)),
        ensures
            (*final(self), r) == rt_motion_from_frame(*old(self), frame),
            rt_wf(*final(self)),
    {
        if !cursor_motion_detected(frame) {
            return None;
        }
        self.motion_config.motion_event(
            self.side,
            frame.relative_x,
            frame.relative_y,
            &mut self.cursor.remainder_x,
            &mut self.cursor.remainder_y,
        )
    }

    fn handle_scroll_delta(&mut self, delta: TrackpadScrollDelta, sends: &mut Vec<TrackpadMotionEvent>) -> (r: Option<Event>)
        requires
            rt_wf(*old(self)),
        ensures
            *final(self) == rt_handle_scroll(*old(self), delta, false).0,
            rmk::opt_event_view(r) == rt_handle_scroll(*old(self), delta, false).1,
            final(sends)@ == old(sends)@ + rt_handle_scroll(*old(self), delta, false).2,
            rt_wf(*final(self)),
    {
        let scroll = self.scroll_config.scroll_event(
            self.side,
            delta.x,
            delta.y,
            &mut self.scroll.remainder_x,
            &mut self.scroll.remainder_y,
        );
        match scroll {
            Some(m) => self.handle_motion(m, sends),
            None => {
                proof {
                    assert(final(sends)@ =~= old(sends)@ + rt_handle_scroll(*old(self), delta, false).2);
                }
                None
            },
        }
    }

    fn handle_inertia_scroll_delta(&mut self, delta: TrackpadScrollDelta, sends: &mut Vec<TrackpadMotionEvent>) -> (r: Option<Event>)
        requires
            rt_wf(*old(self)),
        ensures
            *final(self) == rt_handle_scroll(*old(self), delta, true).0,
            rmk::opt_event_view(r) == rt_handle_scroll(*old(self), delta, true).1,
            final(sends)@ == old(sends)@ + rt_handle_scroll(*old(self), delta, true).2,
            rt_wf(*final(self)),
    {
        let scroll = self.scroll_config.inertia_scroll_event(
            self.side,
            delta.x,
            delta.y,
            &mut self.scroll.remainder_x,
            &mut self.scroll.remainder_y,
        );
        match scroll {
            Some(m) => self.handle_motion(m, sends),
            None => {
                proof {
                    assert(final(sends)@ =~= old(sends)@ + rt_handle_scroll(*old(self), delta, true).2);
                }
                None
            },
        }
    }

    fn pinch_report_event(&mut self, started: bool, ended: bool, wheel: i16) -> (r: Option<Event>)
        requires
            rt_wf(*old(self)),
        ensures
            *final(self) == rt_pinch_event(*old(self), started, ended, wheel).0,
            rmk::opt_event_view(r) == rt_pinch_event(*old(self), started, ended, wheel).1,
            rt_wf(*final(self)),
    {
        proof {
            reveal(rt_pinch_event);
        }
        if started {
            self.reset_scroll_runtime();
        }
        let motion = match pinch_wheel_to_motion(self.side, wheel) {
            Some(m) => m,
            None => TrackpadMotionEvent::scroll(self.side, 0, 0),
        };
        if !started && !ended && motion.is_empty() {
            return None;
        }
        if started {
            self.buttons.pinch_pressed = true;
        }
        if ended {
            self.buttons.pinch_pressed = false;
        }
        Some(Event::Custom(TrackpadPinchReport::new(self.side, started, ended, motion).encode()))
    }

    fn record_cursor_motion(&mut self, motion: TrackpadMotionEvent, now_ms: u32)
        requires
            rt_wf(*old(self)),
            inertia::history_wf(old(self).cursor.history),
        ensures
            *final(self) == rt_record_cursor(*old(self), motion, now_ms),
            inertia::history_wf(final(self).cursor.history),
            rt_wf(*final(self)),
    {
        if motion.x == 0 && motion.y == 0 {
            return;
        }
        self.cursor.inertia.reset();
        self.cursor.history.push(TrackpadScrollDelta { x: motion.x, y: motion.y }, now_ms);
    }

    fn start_cursor_inertia(&mut self, now_ms: u32)
        requires
            rt_wf(*old(self)),
            inertia::history_wf(old(self).cursor.history),
        ensures
            *final(self) == rt_start_cursor_inertia(*old(self), now_ms),
            rt_wf(*final(self)),
    {
        if !self.cursor.inertia_enabled {
            self.cursor.history.reset();
            self.cursor.inertia.reset();
            return;
        }
        self.cursor.remainder_x = 0;
        self.cursor.remainder_y = 0;
        let config = cursor_inertia_config();
        if let Some(seed) = self.cursor.history.seed_with(now_ms, config) {
            self.cursor.inertia.start_with(seed, now_ms, config);
        }
        self.cursor.history.reset();
    }

    /// A cursor fling step at `now_ms`: the event to hand to the keyboard, if
    /// any; motions to send go to `sends`.
    pub fn flush_cursor_inertia(&mut self, now_ms: u32, sends: &mut Vec<TrackpadMotionEvent>) -> (r: Option<Event>)
        requires
            rt_wf(*old(self)),
        ensures
            *final(self) == rt_flush_cursor_inertia(*old(self), now_ms).0,
            rmk::opt_event_view(r) == rt_flush_cursor_inertia(*old(self), now_ms).1,
            final(sends)@ == old(sends)@ + rt_flush_cursor_inertia(*old(self), now_ms).2,
            rt_wf(*final(self)),
    {
        match self.cursor.inertia.step_with(now_ms, cursor_inertia_config()) {
            Some(delta) => self.handle_motion(TrackpadMotionEvent::cursor(self.side, delta.x, delta.y), sends),
            None => {
                proof {
                    assert(final(sends)@ =~= old(sends)@ + rt_flush_cursor_inertia(*old(self), now_ms).2);
                }
                None
            },
        }
    }

    /// A scroll fling step at `now_ms`: the event to hand to the keyboard, if
    /// any; motions to send go to `sends`.
    pub fn flush_scroll_inertia(&mut self, now_ms: u32, sends: &mut Vec<TrackpadMotionEvent>) -> (r: Option<Event>)
        requires
            rt_wf(*old(self)),
        ensures
            *final(self) == rt_flush_scroll_inertia(*old(self), now_ms).0,
            rmk::opt_event_view(r) == rt_flush_scroll_inertia(*old(self), now_ms).1,
            final(sends)@ == old(sends)@ + rt_flush_scroll_inertia(*old(self), now_ms).2,
            rt_wf(*final(self)),
    {
        match self.scroll.inertia.step(now_ms) {
            Some(delta) => self.handle_inertia_scroll_delta(delta, sends),
            None => {
                proof {
                    assert(final(sends)@ =~= old(sends)@ + rt_flush_scroll_inertia(*old(self), now_ms).2);
                }
                None
            },
        }
    }

    fn smooth_scroll_delta(&mut self, delta: TrackpadScrollDelta) -> (r: TrackpadScrollDelta)
        requires
            rt_wf(*old(self)),
        ensures
            final(self).scroll.smooth_x_fp == motion::smooth_spec(old(self).scroll.smooth_x_fp, delta.x),
            final(self).scroll.smooth_y_fp == motion::smooth_spec(old(self).scroll.smooth_y_fp, delta.y),
            *final(self) == (Rt {
                scroll: ScrollRuntime {
                    smooth_x_fp: final(self).scroll.smooth_x_fp,
                    smooth_y_fp: final(self).scroll.smooth_y_fp,
                    ..old(self).scroll
                },
                ..*old(self)
            }),
            r == (TrackpadScrollDelta {
                x: motion::round_fp_spec(final(self).scroll.smooth_x_fp, 8) as i16,
                y: motion::round_fp_spec(final(self).scroll.smooth_y_fp, 8) as i16,
            }),
            rt_wf(*final(self)),
    {
        self.scroll.smooth_x_fp = smooth_scroll_axis(self.scroll.smooth_x_fp, delta.x);
        self.scroll.smooth_y_fp = smooth_scroll_axis(self.scroll.smooth_y_fp, delta.y);
        TrackpadScrollDelta {
            x: fixed_point_to_i16_rounded(self.scroll.smooth_x_fp, SCROLL_SMOOTHING_FP_SHIFT),
            y: fixed_point_to_i16_rounded(self.scroll.smooth_y_fp, SCROLL_SMOOTHING_FP_SHIFT),
        }
    }

    fn record_active_scroll(&mut self, delta: TrackpadScrollDelta, now_ms: u32, sends: &mut Vec<TrackpadMotionEvent>) -> (r: Option<Event>)
        requires
            rt_wf(*old(self)),
            inertia::history_wf(old(self).scroll.history),
        ensures
            *final(self) == rt_record_active_scroll(*old(self), delta, now_ms).0,
            rmk::opt_event_view(r) == rt_record_active_scroll(*old(self), delta, now_ms).1,
            final(sends)@ == old(sends)@ + rt_record_active_scroll(*old(self), delta, now_ms).2,
            inertia::history_wf(final(self).scroll.history),
            inertia::history_wf(final(self).cursor.history),
            rt_wf(*final(self)),
    {
        proof {
            reveal(rt_record_active_scroll);
            inertia::lemma_history_new_empty();
        }
        self.scroll.inertia.reset();
        self.cursor.history.reset();
        self.cursor.inertia.reset();
        if delta.x == 0 && delta.y == 0 {
            self.reset_scroll_smoothing();
            proof {
                assert(final(sends)@ =~= old(sends)@ + rt_record_active_scroll(*old(self), delta, now_ms).2);
            }
            return None;
        }
        let delta = self.smooth_scroll_delta(delta);
        self.scroll.history.push(delta, now_ms);
        self.handle_scroll_delta(delta, sends)
    }

    fn start_scroll_inertia(&mut self, now_ms: u32)
        requires
            rt_wf(*old(self)),
            inertia::history_wf(old(self).scroll.history),
        ensures
            *final(self) == rt_start_scroll_inertia(*old(self), now_ms),
            rt_wf(*final(self)),
    {
        self.scroll.remainder_x = 0;
        self.scroll.remainder_y = 0;
        self.reset_scroll_smoothing();
        if let Some(seed) = self.scroll.history.seed(now_ms) {
            self.scroll.inertia.start(seed, now_ms);
        }
        self.scroll.history.reset();
    }

    fn handle_pointer_button(&mut self, button: TrackpadButton, pressed: bool, sends: &mut Vec<TrackpadMotionEvent>) -> (r: Option<Event>)
        requires
            rt_wf(*old(self)),
        ensures
            *final(self) == rt_pointer_button(*old(self), button, pressed).0,
            rmk::opt_event_view(r) == rt_pointer_button(*old(self), button, pressed).1,
            final(sends)@ == old(sends)@ + rt_pointer_button(*old(self), button, pressed).2,
            rt_wf(*final(self)),
    {
        let mask = match button.mouse_button_mask() {
            Some(mask) => mask,
            None => {
                proof {
                    assert(final(sends)@ =~= old(sends)@ + rt_pointer_button(*old(self), button, pressed).2);
                }
                return None;
            },
        };
        if pressed {
            self.buttons.pointer_buttons = self.buttons.pointer_buttons | mask;
        } else {
            self.buttons.pointer_buttons = self.buttons.pointer_buttons & !mask;
        }
        self.handle_motion(TrackpadMotionEvent::button_state(self.side, self.buttons.pointer_buttons), sends)
    }

    fn handle_virtual_button(&mut self, button: TrackpadButton, pressed: bool) -> (r: Option<Event>)
        requires
            rt_wf(*old(self)),
        ensures
            *final(self) == rt_virtual_button(*old(self), button, pressed).0,
            rmk::opt_event_view(r) == rt_virtual_button(*old(self), button, pressed).1,
            rt_wf(*final(self)),
    {
        let next_bits = if pressed {
            self.buttons.virtual_buttons.pressed_bits() | button.bit()
        } else {
            self.buttons.virtual_buttons.pressed_bits() & !button.bit()
        };
        let mut events = self.buttons.virtual_buttons.update(next_bits);
        let next_event = events.next();
        self.buttons.pending_virtual_buttons = Some(events);
        match next_event {
            Some(e) => Some(e.into_rmk_event()),
            None => None,
        }
    }

    fn handle_trackpad_button(&mut self, button: TrackpadButton, pressed: bool, sends: &mut Vec<TrackpadMotionEvent>) -> (r: Option<Event>)
        requires
            rt_wf(*old(self)),
        ensures
            *final(self) == rt_trackpad_button(*old(self), button, pressed).0,
            rmk::opt_event_view(r) == rt_trackpad_button(*old(self), button, pressed).1,
            final(sends)@ == old(sends)@ + rt_trackpad_button(*old(self), button, pressed).2,
            rt_wf(*final(self)),
    {
        if button.mouse_button_mask().is_none() {
            proof {
                assert(final(sends)@ =~= old(sends)@ + rt_trackpad_button(*old(self), button, pressed).2);
            }
            return self.handle_virtual_button(button, pressed);
        }
        self.handle_pointer_button(button, pressed, sends)
    }

    fn flush_pending_virtual_buttons(&mut self) -> (r: Option<Event>)
        requires
            rt_wf(*old(self)),
        ensures
            *final(self) == rt_flush_virtual(*old(self)).0,
            rmk::opt_event_view(r) == rt_flush_virtual(*old(self)).1,
            rt_wf(*final(self)),
    {
        match self.buttons.pending_virtual_buttons {
            Some(events) => {
                let mut events = events;
                match events.next() {
                    Some(event) => {
                        self.buttons.pending_virtual_buttons = Some(events);
                        Some(event.into_rmk_event())
                    },
                    None => {
                        self.buttons.pending_virtual_buttons = None;
                        None
                    },
                }
            },
            None => None,
        }
    }

    fn finish_frame_runtime(&mut self, previous_finger_count: u8, current_finger_count: u8, now_ms: u32, allow_cursor_inertia: bool)
        requires
            rt_wf(*old(self)),
            inertia::history_wf(old(self).cursor.history),
        ensures
            *final(self) == rt_finish(*old(self), previous_finger_count, current_finger_count, now_ms, allow_cursor_inertia),
            rt_wf(*final(self)),
    {
        proof {
            reveal(rt_finish);
        }
        if current_finger_count == 0 {
            if allow_cursor_inertia && previous_finger_count == 1 && !self.recognizer.cursor_suppressed() {
                self.start_cursor_inertia(now_ms);
            }
            self.cursor.remainder_x = 0;
            self.cursor.remainder_y = 0;
            if !self.scroll.inertia.active {
                self.scroll.remainder_x = 0;
                self.scroll.remainder_y = 0;
            }
        } else if current_finger_count >= 2 {
            self.cursor.history.reset();
            self.cursor.inertia.reset();
        }
        self.last_finger_count = current_finger_count;
    }

    /// The next queued key or pinch event to hand to the keyboard, if any.
    pub fn next_queued_event(&mut self) -> (r: Option<Event>)
        requires
            rt_wf(*old(self)),
        ensures
            *final(self) == rt_next_queued(*old(self)).0,
            rmk::opt_event_view(r) == rt_next_queued(*old(self)).1,
            rt_wf(*final(self)),
    {
        proof {
            reveal(rt_next_queued);
        }
        if let Some(event) = self.flush_pending_virtual_buttons() {
            return Some(event);
        }
        if let Some(report) = self.buttons.pending_pinch_report {
            self.buttons.pending_pinch_report = None;
            return Some(Event::Custom(report.encode()));
        }
        match self.buttons.pending_click {
            Some(events) => {
                let mut events = events;
                match events.next() {
                    Some(event) => {
                        self.buttons.pending_click = Some(events);
                        Some(event.into_rmk_event())
                    },
                    None => {
                        self.buttons.pending_click = None;
                        None
                    },
                }
            },
            None => None,
        }
    }

    fn handle_gesture(&mut self, gesture: TrackpadGestureEvent, prev: u8, cur: u8, now_ms: u32, sends: &mut Vec<TrackpadMotionEvent>) -> (r: FrameOutcome)
        requires
            rt_wf(*old(self)),
        ensures
            (*final(self), r@, final(sends)@) == ({
                let (s2, o, m) = rt_gesture(*old(self), gesture, prev, cur, now_ms);
                (s2, o, old(sends)@ + m)
            }),
            rt_wf(*final(self)),
    {
        proof {
            reveal(rt_gesture);
            inertia::lemma_history_new_empty();
            assert(old(sends)@ =~= old(sends)@ + Seq::<TrackpadMotionEvent>::empty());
        }
        let event = match gesture {
            TrackpadGestureEvent::Button { button, pressed } => {
                if button == TrackpadButton::Pinch {
                    self.pinch_report_event(false, !pressed, 0)
                } else {
                    self.handle_trackpad_button(button, pressed, sends)
                }
            },
            TrackpadGestureEvent::Click(button) => {
                self.buttons.pending_click = Some(TrackpadClickEvents::new(self.side, button));
                None
            },
            TrackpadGestureEvent::ReleaseAndClick(button) => {
                self.buttons.pending_click = Some(TrackpadClickEvents::new(self.side, button));
                self.handle_trackpad_button(button, false, sends)
            },
            TrackpadGestureEvent::Scroll(delta) => self.record_active_scroll(delta, now_ms, sends),
            TrackpadGestureEvent::ScrollEnded => {
                self.start_scroll_inertia(now_ms);
                None
            },
            TrackpadGestureEvent::PinchStarted(wheel) => {
                self.scroll.inertia.reset();
                self.scroll.history.reset();
                self.pinch_report_event(true, false, wheel)
            },
            TrackpadGestureEvent::PinchWheel(wheel) => {
                self.scroll.inertia.reset();
                self.scroll.history.reset();
                self.pinch_report_event(false, false, wheel)
            },
            TrackpadGestureEvent::DeferredHoldPending => None,
        };
        self.finish_frame_runtime(prev, cur, now_ms, false);
        match event {
            Some(e) => FrameOutcome::Emit(e),
            None => FrameOutcome::ReadAgain,
        }
    }

    fn handle_cursor_frame(&mut self, frame: CoordinateFrame, prev: u8, cur: u8, now_ms: u32, sends: &mut Vec<TrackpadMotionEvent>) -> (r: FrameOutcome)
        requires
            rt_wf(*old(self)),
        ensures
            (*final(self), r@, final(sends)@) == ({
                let (s2, o, m) = rt_cursor_frame(*old(self), frame, prev, cur, now_ms);
                (s2, o, old(sends)@ + m)
            }),
            rt_wf(*final(self)),
    {
        proof {
            reveal(rt_cursor_frame);
            inertia::lemma_history_new_empty();
            assert(old(sends)@ =~= old(sends)@ + Seq::<TrackpadMotionEvent>::empty());
        }
        if !self.recognizer.cursor_suppressed() {
            if let Some(motion) = self.motion_from_frame(frame) {
                self.record_cursor_motion(motion, now_ms);
                let event = self.handle_motion(motion, sends);
                let waits = self.motion_interval_ms.is_some();
                self.finish_frame_runtime(prev, cur, now_ms, true);
                return match event {
                    Some(e) => FrameOutcome::Emit(e),
                    None => if waits {
                        FrameOutcome::WaitMotionInterval
                    } else {
                        FrameOutcome::ReadAgain
                    },
                };
            }
        }
        self.finish_frame_runtime(prev, cur, now_ms, true);
        FrameOutcome::Sleep
    }

    /// Handle a coordinate frame read at `now_ms`: what the read loop does
    /// next; motions to send go to `sends`.
    pub fn frame_read(&mut self, frame: CoordinateFrame, now_ms: u32, sends: &mut Vec<TrackpadMotionEvent>) -> (r: FrameOutcome)
        requires
            rt_wf(*old(self)),
        ensures
            (*final(self), r@, final(sends)@) == ({
                let (s2, o, m) = rt_frame(*old(self), frame, now_ms);
                (s2, o, old(sends)@ + m)
            }),
            rt_wf(*final(self)),
    {
        proof {
            reveal(rt_frame);
            inertia::lemma_history_new_empty();
        }
        self.health.read_error_count = 0;
        if frame.show_reset() {
            self.reset_sensor_runtime(true, sends);
            self.health.initialized = false;
            self.health.degraded_mode = false;
            return FrameOutcome::ReadAgain;
        }
        let prev = self.last_finger_count;
        let cur = frame.finger_count();
        if cur > 0 {
            self.scroll.inertia.reset();
            self.cursor.inertia.reset();
        }
        if prev == 0 && cur == 1 {
            self.cursor.history.reset();
        }
        match self.recognizer.update(frame, now_ms) {
            Some(gesture) => self.handle_gesture(gesture, prev, cur, now_ms, sends),
            None => self.handle_cursor_frame(frame, prev, cur, now_ms, sends),
        }
    }

    /// Handle a failed frame read at `now_ms`; the read loop then sleeps the
    /// poll interval. Motions to send go to `sends`.
    pub fn frame_read_failed(&mut self, now_ms: u32, sends: &mut Vec<TrackpadMotionEvent>)
        requires
            rt_wf(*old(self)),
        ensures
            *final(self) == rt_read_failed(*old(self), now_ms).0,
            final(sends)@ == old(sends)@ + rt_read_failed(*old(self), now_ms).1,
            rt_wf(*final(self)),
    {
        proof {
            reveal(rt_read_failed);
        }
        self.health.read_error_count = self.health.read_error_count.saturating_add(1);
        self.reset_sensor_runtime(false, sends);
        if self.health.read_error_count >= MAX_RUNTIME_READ_ERRORS {
            self.health.initialized = false;
            self.health.degraded_mode = false;
            self.health.read_error_count = 0;
        } else if self.health.degraded_mode {
            let ghost mid = sends@;
            self.send_diagnostic_nudge(now_ms, sends);
            proof {
                assert(sends@ =~= old(sends)@ + rt_read_failed(*old(self), now_ms).1);
            }
        }
    }

    /// The sensor came up: it counts as initialised, with no failures or
    /// read errors on record and not degraded.
    pub fn init_succeeded(&mut self)
        ensures
            *final(self) == (Rt {
                health: HealthRuntime {
                    initialized: true,
                    init_failure_count: 0,
                    read_error_count: 0,
                    degraded_mode: false,
                    ..old(self).health
                },
                ..*old(self)
            }),
    {
        self.health.init_failure_count = 0;
        self.health.read_error_count = 0;
        self.health.degraded_mode = false;
        self.health.initialized = true;
    }

    /// Handle a failed initialisation at `now_ms`: what the read loop does
    /// next; motions to send go to `sends`.
    pub fn init_failed(&mut self, now_ms: u32, sends: &mut Vec<TrackpadMotionEvent>) -> (r: InitOutcome)
        requires
            rt_wf(*old(self)),
        ensures
            (*final(self), r, final(sends)@) == ({
                let (s2, o, m) = rt_init_failed(*old(self), now_ms);
                (s2, o, old(sends)@ + m)
            }),
            rt_wf(*final(self)),
    {
        proof {
            reveal(rt_init_failed);
        }
        self.health.init_failure_count = self.health.init_failure_count.saturating_add(1);
        self.reset_sensor_runtime(true, sends);
        self.send_diagnostic_nudge(now_ms, sends);
        proof {
            assert(sends@ =~= old(sends)@ + rt_init_failed(*old(self), now_ms).2);
        }
        if self.health.init_failure_count >= MAX_INIT_FAILURES_BEFORE_DEGRADED {
            self.health.initialized = true;
            self.health.degraded_mode = true;
            self.health.read_error_count = 0;
            return InitOutcome::Continue;
        }
        InitOutcome::Sleep
    }

    /// Use `poll_interval_ms` between sensor polls.
    pub fn set_poll_interval_ms(&mut self, poll_interval_ms: u64)
        ensures
            *final(self) == (Rt { poll_interval_ms, ..*old(self) }),
    {
        self.poll_interval_ms = poll_interval_ms;
    }

    /// Wait `motion_interval_ms` after each cursor motion that was sent.
    pub fn set_motion_interval_ms(&mut self, motion_interval_ms: u64)
        ensures
            *final(self) == (Rt { motion_interval_ms: Some(motion_interval_ms), ..*old(self) }),
    {
        self.motion_interval_ms = Some(motion_interval_ms);
    }

    /// Do not wait after cursor motion.
    pub fn clear_motion_interval(&mut self)
        ensures
            *final(self) == (Rt { motion_interval_ms: None, ..*old(self) }),
    {
        self.motion_interval_ms = None;
    }

    /// Turn cursor inertia on or off; turning it off forgets the cursor
    /// history and stops any cursor fling.
    pub fn set_cursor_inertia_enabled(&mut self, enabled: bool)
        requires
            rt_wf(*old(self)),
        ensures
            rt_wf(*final(self)),
            *final(self) == if enabled {
                Rt { cursor: CursorRuntime { inertia_enabled: true, ..old(self).cursor }, ..*old(self) }
            } else {
                Rt {
                    cursor: CursorRuntime {
                        inertia_enabled: false,
                        history: inertia::history_new_spec(),
                        inertia: inertia::inertia_idle(),
                        ..old(self).cursor
                    },
                    ..*old(self)
                }
            },
    {
        self.cursor.inertia_enabled = enabled;
        if !enabled {
            self.cursor.history.reset();
            self.cursor.inertia.reset();
        }
    }

    /// Recognise gestures with `config`, starting over.
    pub fn set_gesture_config(&mut self, config: TrackpadGestureConfig)
        requires
            rt_wf(*old(self)),
        ensures
            rt_wf(*final(self)),
            *final(self) == (Rt { recognizer: gesture::rg_new(config), ..*old(self) }),
    {
        self.recognizer = TrackpadGestureRecognizer::new(config);
    }

    /// Scale cursor motion with `config`, dropping the remainders.
    pub fn set_motion_config(&mut self, config: TrackpadMotionConfig)
        ensures
            *final(self) == (Rt {
                motion_config: config,
                cursor: CursorRuntime { remainder_x: 0, remainder_y: 0, ..old(self).cursor },
                ..*old(self)
            }),
    {
        self.motion_config = config;
        self.cursor.remainder_x = 0;
        self.cursor.remainder_y = 0;
    }

    /// Scale scrolling with `config`, dropping the remainders and smoothing.
    pub fn set_scroll_config(&mut self, config: TrackpadScrollConfig)
        ensures
            *final(self) == (Rt {
                scroll_config: config,
                scroll: ScrollRuntime { remainder_x: 0, remainder_y: 0, smooth_x_fp: 0, smooth_y_fp: 0, ..old(self).scroll },
                ..*old(self)
            }),
    {
        self.scroll_config = config;
        self.scroll.remainder_x = 0;
        self.scroll.remainder_y = 0;
        self.reset_scroll_smoothing();
    }

    /// Send motion out through `output`.
    pub fn set_motion_output(&mut self, output: Iqs9151MotionOutput)
        ensures
            *final(self) == (Rt { motion_output: output, ..*old(self) }),
    {
        self.motion_output = output;
    }
}

// ---------------------------------------------------------------- laws

/// A sensor reset or read error never leaves anything held: afterwards no
/// mouse button, virtual key button or pinch is held, the recognizer has
/// started over, and when mouse buttons were held their release went out
/// (sent, or kept pending for the keyboard output).
pub proof fn lemma_reset_releases_everything(s: Rt, clear_pending: bool)
    ensures
        ({
            let (s2, sends) = rt_reset_sensor(s, clear_pending);
            &&& s2.buttons.pointer_buttons == 0
            &&& s2.buttons.virtual_buttons.pressed_bits == 0
            &&& !s2.buttons.pinch_pressed
            &&& s2.recognizer == gesture::rg_new(s.recognizer.config)
            &&& s2.health == s.health
            &&& (s.buttons.pointer_buttons != 0 && s.motion_output != Iqs9151MotionOutput::RmkEvent
                ==> sends == seq![motion::button_state_spec(s.side, 0)])
            &&& (s.buttons.pointer_buttons != 0 && s.motion_output == Iqs9151MotionOutput::RmkEvent
                ==> s2.pending_motion == Some(motion::button_state_spec(s.side, 0)) && sends.len() == 0)
            &&& (s.buttons.pinch_pressed ==> s2.buttons.pending_pinch_report == Some(
                TrackpadPinchReport { side: s.side, started: false, ended: true, motion: motion::scroll_spec(s.side, 0, 0) },
            ))
        }),
{
    reveal(rt_reset_sensor);
}

/// The read-error count stays under its limit: reaching the limit asks for
/// initialisation again and starts counting from zero.
pub proof fn lemma_read_errors_bounded(s: Rt, now: u32)
    requires
        s.health.read_error_count < MAX_RUNTIME_READ_ERRORS,
    ensures
        rt_read_failed(s, now).0.health.read_error_count < MAX_RUNTIME_READ_ERRORS,
        s.health.read_error_count + 1 == MAX_RUNTIME_READ_ERRORS ==> !rt_read_failed(s, now).0.health.initialized
            && rt_read_failed(s, now).0.health.read_error_count == 0,
{
    reveal(rt_read_failed);
    reveal(rt_reset_sensor);
}

/// A successful frame read clears the read-error count.
pub proof fn lemma_frame_clears_read_errors(s: Rt, f: CoordinateFrame, now: u32)
    requires
        !frame::show_reset_spec(f),
    ensures
        rt_frame(s, f, now).0.health.read_error_count == 0,
{
    reveal(rt_frame);
    let s0 = Rt { health: HealthRuntime { read_error_count: 0, ..s.health }, ..s };
    let prev = s0.last_finger_count;
    let cur = frame::finger_count_spec(f);
    let s1 = if cur > 0 {
        Rt {
            scroll: ScrollRuntime { inertia: inertia::inertia_idle(), ..s0.scroll },
            cursor: CursorRuntime { inertia: inertia::inertia_idle(), ..s0.cursor },
            ..s0
        }
    } else {
        s0
    };
    let s2 = if prev == 0 && cur == 1 {
        Rt { cursor: CursorRuntime { history: inertia::history_new_spec(), ..s1.cursor }, ..s1 }
    } else {
        s1
    };
    let (rg, g) = gesture::rg_update(s2.recognizer, f, now);
    let s3 = Rt { recognizer: rg, ..s2 };
    lemma_gesture_keeps_health(s3, f, g, prev, cur, now);
}

proof fn lemma_parts_keep_health()
    ensures
        forall|s: Rt, prev: u8, cur: u8, now: u32, allow: bool| #[trigger] rt_finish(s, prev, cur, now, allow).health == s.health,
        forall|s: Rt, st: bool, en: bool, w: i16| #[trigger] rt_pinch_event(s, st, en, w).0.health == s.health,
        forall|s: Rt, d: TrackpadScrollDelta, now: u32| #[trigger] rt_record_active_scroll(s, d, now).0.health == s.health,
{
    reveal(rt_finish);
    reveal(rt_pinch_event);
    reveal(rt_record_active_scroll);
}

proof fn lemma_gesture_keeps_health(s: Rt, f: CoordinateFrame, g: Option<TrackpadGestureEvent>, prev: u8, cur: u8, now: u32)
    ensures
        match g {
            Some(g) => rt_gesture(s, g, prev, cur, now).0.health == s.health,
            None => rt_cursor_frame(s, f, prev, cur, now).0.health == s.health,
        },
{
    reveal(rt_gesture);
    reveal(rt_cursor_frame);
    lemma_parts_keep_health();
}

/// After enough failed initialisations in a row the device stops retrying
/// and runs degraded.
pub proof fn lemma_init_failures_degrade(s: Rt, now: u32)
    requires
        s.health.init_failure_count + 1 >= MAX_INIT_FAILURES_BEFORE_DEGRADED,
    ensures
        rt_init_failed(s, now).1 == InitOutcome::Continue,
        rt_init_failed(s, now).0.health.initialized,
        rt_init_failed(s, now).0.health.degraded_mode,
{
    reveal(rt_init_failed);
    reveal(rt_reset_sensor);
}

/// A motion queued after a failed send stays within the caps: cursor steps
/// of at most 36 and scroll steps of at most 2 per axis.
pub proof fn lemma_pending_motion_capped(pending: Option<TrackpadMotionEvent>, m: TrackpadMotionEvent)
    ensures
        ({
            let q = queued_spec(pending, m)->0;
            &&& -36 <= q.x <= 36
            &&& -36 <= q.y <= 36
            &&& -2 <= q.wheel <= 2
            &&& -2 <= q.pan <= 2
        }),
{
}


proof fn lemma_parts_keep_cursor_fling()
    ensures
        forall|s: Rt, prev: u8, cur: u8, now: u32| #[trigger] rt_finish(s, prev, cur, now, false).cursor.inertia
            == if cur >= 2 {
            inertia::inertia_idle()
        } else {
            s.cursor.inertia
        },
        forall|s: Rt, prev: u8, cur: u8, now: u32|
            cur != 0 ==> #[trigger] rt_finish(s, prev, cur, now, true).cursor.inertia == if cur >= 2 {
                inertia::inertia_idle()
            } else {
                s.cursor.inertia
            },
        forall|s: Rt, st: bool, en: bool, w: i16| #[trigger] rt_pinch_event(s, st, en, w).0.cursor == s.cursor,
        forall|s: Rt, d: TrackpadScrollDelta, now: u32| #[trigger] rt_record_active_scroll(s, d, now).0.cursor.inertia
            == inertia::inertia_idle(),
{
    reveal(rt_finish);
    reveal(rt_pinch_event);
    reveal(rt_record_active_scroll);
}

/// Cursor inertia starts only when a finger that moved the cursor lifts:
/// a gesture frame never starts a cursor fling (it keeps or stops the one
/// running).
pub proof fn lemma_gestures_never_start_cursor_fling(s: Rt, g: TrackpadGestureEvent, prev: u8, cur: u8, now: u32)
    ensures
        rt_gesture(s, g, prev, cur, now).0.cursor.inertia == s.cursor.inertia
            || rt_gesture(s, g, prev, cur, now).0.cursor.inertia == inertia::inertia_idle(),
{
    reveal(rt_gesture);
    lemma_parts_keep_cursor_fling();
}

proof fn lemma_cursor_frame_keeps_fling_stopped(s: Rt, f: CoordinateFrame, prev: u8, cur: u8, now: u32)
    requires
        cur > 0,
        s.cursor.inertia == inertia::inertia_idle(),
    ensures
        rt_cursor_frame(s, f, prev, cur, now).0.cursor.inertia == inertia::inertia_idle(),
{
    reveal(rt_cursor_frame);
    lemma_parts_keep_cursor_fling();
}

proof fn lemma_reset_stops_cursor_fling(s: Rt)
    ensures
        rt_reset_sensor(s, true).0.cursor.inertia == inertia::inertia_idle(),
{
    reveal(rt_reset_sensor);
}

/// Touching the pad stops the cursor fling: after any frame with a finger
/// on the pad, no cursor fling is running.
pub proof fn lemma_touch_stops_cursor_fling(s: Rt, f: CoordinateFrame, now: u32)
    requires
        frame::finger_count_spec(f) > 0,
    ensures
        rt_frame(s, f, now).0.cursor.inertia == inertia::inertia_idle(),
{
    reveal(rt_frame);
    let s0 = Rt { health: HealthRuntime { read_error_count: 0, ..s.health }, ..s };
    lemma_reset_stops_cursor_fling(s0);
    let prev = s0.last_finger_count;
    let cur = frame::finger_count_spec(f);
    let s1 = Rt {
        scroll: ScrollRuntime { inertia: inertia::inertia_idle(), ..s0.scroll },
        cursor: CursorRuntime { inertia: inertia::inertia_idle(), ..s0.cursor },
        ..s0
    };
    let s2 = if prev == 0 && cur == 1 {
        Rt { cursor: CursorRuntime { history: inertia::history_new_spec(), ..s1.cursor }, ..s1 }
    } else {
        s1
    };
    let (rg, g) = gesture::rg_update(s2.recognizer, f, now);
    let s3 = Rt { recognizer: rg, ..s2 };
    match g {
        Some(g) => lemma_gestures_never_start_cursor_fling(s3, g, prev, cur, now),
        None => lemma_cursor_frame_keeps_fling_stopped(s3, f, prev, cur, now),
    }
}


/// A scroll fling that is stopped, or one that starts afresh at `now`.
pub open spec fn fling_fresh_or_stopped(fling: ScrollInertiaState, now: u32) -> bool {
    fling == inertia::inertia_idle() || (fling.elapsed_ms == 0 && fling.last_ms == now && fling.accum_x_fp == 0
        && fling.accum_y_fp == 0)
}

proof fn lemma_parts_keep_scroll_fling()
    ensures
        forall|s: Rt, prev: u8, cur: u8, now: u32, allow: bool| #[trigger] rt_finish(s, prev, cur, now, allow).scroll.inertia
            == s.scroll.inertia,
        forall|s: Rt, st: bool, en: bool, w: i16| #[trigger] rt_pinch_event(s, st, en, w).0.scroll.inertia == if st {
            inertia::inertia_idle()
        } else {
            s.scroll.inertia
        },
        forall|s: Rt, d: TrackpadScrollDelta, now: u32| #[trigger] rt_record_active_scroll(s, d, now).0.scroll.inertia
            == inertia::inertia_idle(),
{
    reveal(rt_finish);
    reveal(rt_pinch_event);
    reveal(rt_record_active_scroll);
}

proof fn lemma_gesture_scroll_fling(s: Rt, g: TrackpadGestureEvent, prev: u8, cur: u8, now: u32)
    requires
        s.scroll.inertia == inertia::inertia_idle(),
    ensures
        fling_fresh_or_stopped(rt_gesture(s, g, prev, cur, now).0.scroll.inertia, now),
{
    reveal(rt_gesture);
    lemma_parts_keep_scroll_fling();
}

proof fn lemma_cursor_frame_scroll_fling(s: Rt, f: CoordinateFrame, prev: u8, cur: u8, now: u32)
    ensures
        rt_cursor_frame(s, f, prev, cur, now).0.scroll.inertia == s.scroll.inertia,
{
    reveal(rt_cursor_frame);
    lemma_parts_keep_scroll_fling();
}

proof fn lemma_reset_stops_scroll_fling(s: Rt)
    ensures
        rt_reset_sensor(s, true).0.scroll.inertia == inertia::inertia_idle(),
{
    reveal(rt_reset_sensor);
}

/// Touching the pad stops a running scroll fling: after a frame with a
/// finger on the pad the fling is stopped, or (when that frame itself ends
/// a scroll) a new one starts from that frame.
pub proof fn lemma_touch_stops_scroll_fling(s: Rt, f: CoordinateFrame, now: u32)
    requires
        frame::finger_count_spec(f) > 0,
    ensures
        fling_fresh_or_stopped(rt_frame(s, f, now).0.scroll.inertia, now),
{
    reveal(rt_frame);
    let s0 = Rt { health: HealthRuntime { read_error_count: 0, ..s.health }, ..s };
    lemma_reset_stops_scroll_fling(s0);
    let prev = s0.last_finger_count;
    let cur = frame::finger_count_spec(f);
    let s1 = Rt {
        scroll: ScrollRuntime { inertia: inertia::inertia_idle(), ..s0.scroll },
        cursor: CursorRuntime { inertia: inertia::inertia_idle(), ..s0.cursor },
        ..s0
    };
    let s2 = if prev == 0 && cur == 1 {
        Rt { cursor: CursorRuntime { history: inertia::history_new_spec(), ..s1.cursor }, ..s1 }
    } else {
        s1
    };
    let (rg, g) = gesture::rg_update(s2.recognizer, f, now);
    let s3 = Rt { recognizer: rg, ..s2 };
    match g {
        Some(g) => lemma_gesture_scroll_fling(s3, g, prev, cur, now),
        None => lemma_cursor_frame_scroll_fling(s3, f, prev, cur, now),
    }
}

/// Lifting the fingers off a scroll flings it. When the scroll history seeds
/// a release velocity that reaches the start threshold on some axis, the
/// fling afterwards runs from now with exactly that velocity and nothing
/// carried over; a slower seed leaves no fling running; no seed leaves the
/// fling as it was. The scroll remainders, smoothing and history are cleared
/// either way.
pub proof fn lemma_lift_starts_scroll_fling(s: TrackpadRuntime, now: u32)
    ensures
        ({
            let cfg = inertia::scroll_inertia_config_spec();
            let after = rt_start_scroll_inertia(s, now).scroll.inertia;
            match inertia::seed_spec(s.scroll.history@, now, cfg) {
                Some(seed) => if arith::abs_int(seed.vx_fp as int) >= cfg.start_threshold * 256
                    || arith::abs_int(seed.vy_fp as int) >= cfg.start_threshold * 256 {
                    after == (ScrollInertiaState {
                        active: true,
                        vx_fp: seed.vx_fp,
                        vy_fp: seed.vy_fp,
                        accum_x_fp: 0,
                        accum_y_fp: 0,
                        elapsed_ms: 0,
                        last_ms: now,
                    })
                } else {
                    !after.active
                },
                None => after == s.scroll.inertia,
            }
        }),
        rt_start_scroll_inertia(s, now).scroll.history@.len() == 0,
        rt_start_scroll_inertia(s, now).scroll.remainder_x == 0,
        rt_start_scroll_inertia(s, now).scroll.remainder_y == 0,
        rt_start_scroll_inertia(s, now).scroll.smooth_x_fp == 0,
        rt_start_scroll_inertia(s, now).scroll.smooth_y_fp == 0,
{
    inertia::lemma_history_new_empty();
}

/// Lifting the finger after cursor motion flings the cursor when cursor
/// inertia is on: a release velocity from the history that reaches the start
/// threshold on some axis starts a fling from now with exactly that
/// velocity; a slower seed leaves no fling running; no seed leaves the fling
/// as it was. With cursor inertia off no fling runs afterwards. The history
/// is cleared either way.
pub proof fn lemma_lift_starts_cursor_fling(s: TrackpadRuntime, now: u32)
    ensures
        !s.cursor.inertia_enabled ==> !rt_start_cursor_inertia(s, now).cursor.inertia.active,
        s.cursor.inertia_enabled ==> ({
            let cfg = inertia::cursor_inertia_config_spec();
            let after = rt_start_cursor_inertia(s, now).cursor.inertia;
            match inertia::seed_spec(s.cursor.history@, now, cfg) {
                Some(seed) => if arith::abs_int(seed.vx_fp as int) >= cfg.start_threshold * 256
                    || arith::abs_int(seed.vy_fp as int) >= cfg.start_threshold * 256 {
                    after == (ScrollInertiaState {
                        active: true,
                        vx_fp: seed.vx_fp,
                        vy_fp: seed.vy_fp,
                        accum_x_fp: 0,
                        accum_y_fp: 0,
                        elapsed_ms: 0,
                        last_ms: now,
                    })
                } else {
                    !after.active
                },
                None => after == s.cursor.inertia,
            }
        }),
        rt_start_cursor_inertia(s, now).cursor.history@.len() == 0,
{
    inertia::lemma_history_new_empty();
}

} // verus!
