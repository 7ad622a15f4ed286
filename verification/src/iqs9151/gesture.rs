//! Coordinate-frame gesture recognition: one-, two- and three-finger taps with
//! deferred tap-drag holds, two-finger scroll and pinch, three-finger swipes.
use vstd::prelude::*;
use crate::iqs9151::arith::{self, abs_i32, clamp_i32_to_i16, elapsed_ms, sat_add_i32, sat_mul_i32, sat_sub_i32};
use crate::iqs9151::buttons::{TrackpadButton, TrackpadClickEvents, TrackpadSide};
use crate::iqs9151::frame::{
    self, finger1_valid, finger2_valid, get_finger1_position, get_two_finger_metrics,
    two_finger_positions_confident, two_finger_relative_scroll_delta, CoordinateFrame,
    FingerPosition, TwoFingerMetrics,
};
use crate::iqs9151::motion::{TrackpadAxisTransform, TrackpadScrollDelta};

verus! {

/// Default hold time before a one-finger touch turns into a drag.
pub const DEFAULT_ONE_FINGER_DRAG_HOLD_MS: u32 = 220;

pub const TAP_REENTRY_WINDOW_MS: u32 = 30;
pub const ONE_FINGER_TAPDRAG_GAP_MAX_MS: u32 = 160;
pub const TWO_FINGER_TAPDRAG_GAP_MAX_MS: u32 = 200;
pub const THREE_FINGER_TAPDRAG_GAP_MAX_MS: u32 = 200;
pub const TWO_FINGER_RELEASE_PENDING_MAX_MS: u32 = 150;
pub const THREE_FINGER_RELEASE_PENDING_MAX_MS: u32 = 150;
pub const TWO_FINGER_ONE_LEAD_MAX_MS: u32 = 120;
pub const THREE_FINGER_ONE_LEAD_MAX_MS: u32 = 120;
pub const THREE_FINGER_TWO_LEAD_MAX_MS: u32 = 120;
pub const TWO_FINGER_SCROLL_START_MOVE: i32 = 24;
pub const TWO_FINGER_RELATIVE_SCROLL_START_MOVE: i16 = 8;
pub const TWO_FINGER_SCROLL_DOMINANCE_MULTIPLIER: i32 = 2;
pub const TWO_FINGER_PINCH_START_DISTANCE: i32 = 100;
pub const TWO_FINGER_PINCH_WHEEL_DIVISOR: i32 = 96;
pub const TWO_FINGER_PINCH_WHEEL_GAIN_X10: i32 = 10;
pub const FINGER_HISTORY_SIZE: usize = 5;

/// What the recognizer reports for one frame.
#[derive(Clone, Copy, Debug, PartialEq, Eq, Structural)]
pub enum TrackpadGestureEvent {
    Button { button: TrackpadButton, pressed: bool },
    ReleaseAndClick(TrackpadButton),
    Click(TrackpadButton),
    Scroll(TrackpadScrollDelta),
    ScrollEnded,
    PinchStarted(i16),
    PinchWheel(i16),
    DeferredHoldPending,
}

impl TrackpadGestureEvent {
    /// The key events a gesture raises directly: a press and release for
    /// clicks, nothing for anything else.
    pub fn button_events(self, side: TrackpadSide) -> (r: TrackpadClickEvents)
        ensures
            r.side == side,
            match self {
                TrackpadGestureEvent::ReleaseAndClick(b) => r.button == b && r.next_pressed == 0,
                TrackpadGestureEvent::Click(b) => r.button == b && r.next_pressed == 0,
                _ => r.button == TrackpadButton::LeftClick && r.next_pressed == 2,
            },
    {
        match self {
            TrackpadGestureEvent::ReleaseAndClick(button) => TrackpadClickEvents::new(side, button),
            TrackpadGestureEvent::Click(button) => TrackpadClickEvents::new(side, button),
            _ => TrackpadClickEvents::empty(side),
        }
    }
}

/// Tap and swipe thresholds of the recognizer.
#[derive(Clone, Copy, Debug, PartialEq, Eq, Structural)]
pub struct TrackpadGestureConfig {
    pub one_finger_tap_max_ms: u32,
    pub one_finger_drag_hold_ms: u32,
    pub one_finger_tap_move: u16,
    pub two_finger_tap_max_ms: u32,
    pub two_finger_tap_move: u16,
    pub three_finger_tap_max_ms: u32,
    pub three_finger_tap_move: u16,
    pub three_finger_swipe_move: u16,
    pub axis_transform: TrackpadAxisTransform,
}

/// The default thresholds.
pub open spec fn default_gesture_config() -> TrackpadGestureConfig {
    TrackpadGestureConfig {
        one_finger_tap_max_ms: 250,
        one_finger_drag_hold_ms: DEFAULT_ONE_FINGER_DRAG_HOLD_MS,
        one_finger_tap_move: 50,
        two_finger_tap_max_ms: 250,
        two_finger_tap_move: 50,
        three_finger_tap_max_ms: 200,
        three_finger_tap_move: 35,
        three_finger_swipe_move: 200,
        axis_transform: TrackpadAxisTransform { invert_x: false, invert_y: false, swap_xy: false },
    }
}

impl Default for TrackpadGestureConfig {
    fn default() -> (r: Self)
        ensures
            r == default_gesture_config(),
    {
        TrackpadGestureConfig {
            one_finger_tap_max_ms: 250,
            one_finger_drag_hold_ms: DEFAULT_ONE_FINGER_DRAG_HOLD_MS,
            one_finger_tap_move: 50,
            two_finger_tap_max_ms: 250,
            two_finger_tap_move: 50,
            three_finger_tap_max_ms: 200,
            three_finger_tap_move: 35,
            three_finger_swipe_move: 200,
            axis_transform: TrackpadAxisTransform::identity(),
        }
    }
}

/// Whether a touch stayed short and still enough: `candidate`, at most
/// `max_ms` since touch-down, and each movement component within `mv`.
pub open spec fn still_within(candidate: bool, now: u32, down: u32, max_ms: u32, mv: u16, dx: i32, dy: i32) -> bool {
    &&& candidate
    &&& arith::elapsed_spec(now, down) <= max_ms
    &&& arith::sat_i32(arith::abs_int(dx as int)) <= mv
    &&& arith::sat_i32(arith::abs_int(dy as int)) <= mv
}

// ---------------------------------------------------------------- one finger

/// Progress of a one-finger touch.
#[derive(Clone, Copy, Debug, PartialEq, Eq, Structural)]
pub struct OneFingerState {
    pub active: bool,
    pub hold_sent: bool,
    pub tap_candidate: bool,
    pub hold_candidate: bool,
    pub tapdrag_second_touch: bool,
    pub down_ms: u32,
    pub dx: i32,
    pub dy: i32,
    pub last_x: i32,
    pub last_y: i32,
}

pub open spec fn of_new() -> OneFingerState {
    OneFingerState {
        active: false,
        hold_sent: false,
        tap_candidate: false,
        hold_candidate: false,
        tapdrag_second_touch: false,
        down_ms: 0,
        dx: 0,
        dy: 0,
        last_x: 0,
        last_y: 0,
    }
}

pub open spec fn of_start(now: u32, x: i32, y: i32, tap: bool, td: bool) -> OneFingerState {
    OneFingerState {
        active: true,
        hold_sent: td,
        tap_candidate: tap,
        hold_candidate: td,
        tapdrag_second_touch: td,
        down_ms: now,
        dx: 0,
        dy: 0,
        last_x: x,
        last_y: y,
    }
}

#[verifier::opaque]
pub open spec fn of_update_position(o: OneFingerState, x: i32, y: i32) -> OneFingerState {
    OneFingerState {
        dx: arith::sat_i32(o.dx + arith::sat_i32(x - o.last_x)),
        dy: arith::sat_i32(o.dy + arith::sat_i32(y - o.last_y)),
        last_x: x,
        last_y: y,
        ..o
    }
}

#[verifier::opaque]
pub open spec fn of_tap_valid(o: OneFingerState, now: u32, max_ms: u32, mv: u16) -> bool {
    still_within(o.tap_candidate, now, o.down_ms, max_ms, mv, o.dx, o.dy)
}

#[verifier::opaque]
pub open spec fn of_hold_valid(o: OneFingerState, now: u32, max_ms: u32, mv: u16) -> bool {
    still_within(o.hold_candidate, now, o.down_ms, max_ms, mv, o.dx, o.dy)
}

#[verifier::opaque]
pub open spec fn of_cancel(o: OneFingerState, now: u32, max_ms: u32, mv: u16) -> OneFingerState {
    let o1 = if !of_tap_valid(o, now, max_ms, mv) {
        OneFingerState { tap_candidate: false, ..o }
    } else {
        o
    };
    if !of_hold_valid(o1, now, max_ms, mv) {
        OneFingerState { hold_candidate: false, ..o1 }
    } else {
        o1
    }
}

impl OneFingerState {
    pub fn new() -> (r: Self)
        ensures
            r == of_new(),
    {
        OneFingerState {
            active: false,
            hold_sent: false,
            tap_candidate: false,
            hold_candidate: false,
            tapdrag_second_touch: false,
            down_ms: 0,
            dx: 0,
            dy: 0,
            last_x: 0,
            last_y: 0,
        }
    }

    fn start(now_ms: u32, x: i32, y: i32, tap_candidate: bool, tapdrag_second_touch: bool) -> (r:
        Self)
        ensures
            r == of_start(now_ms, x, y, tap_candidate, tapdrag_second_touch),
    {
        OneFingerState {
            active: true,
            hold_sent: tapdrag_second_touch,
            tap_candidate,
            hold_candidate: tapdrag_second_touch,
            tapdrag_second_touch,
            down_ms: now_ms,
            dx: 0,
            dy: 0,
            last_x: x,
            last_y: y,
        }
    }

    fn update_position(self, x: i32, y: i32) -> (r: Self)
        ensures
            r == of_update_position(self, x, y),
    {
        proof {
            reveal(of_update_position);
        }
        OneFingerState {
            dx: sat_add_i32(self.dx, sat_sub_i32(x, self.last_x)),
            dy: sat_add_i32(self.dy, sat_sub_i32(y, self.last_y)),
            last_x: x,
            last_y: y,
            ..self
        }
    }

    fn tap_valid(self, now_ms: u32, max_ms: u32, move_threshold: u16) -> (r: bool)
        ensures
            r == of_tap_valid(self, now_ms, max_ms, move_threshold),
    {
        proof {
            reveal(of_tap_valid);
        }
        self.tap_candidate && elapsed_ms(now_ms, self.down_ms) <= max_ms && abs_i32(self.dx)
            <= move_threshold as i32 && abs_i32(self.dy) <= move_threshold as i32
    }

    fn hold_valid(self, now_ms: u32, max_ms: u32, move_threshold: u16) -> (r: bool)
        ensures
            r == of_hold_valid(self, now_ms, max_ms, move_threshold),
    {
        proof {
            reveal(of_hold_valid);
        }
        self.hold_candidate && elapsed_ms(now_ms, self.down_ms) <= max_ms && abs_i32(self.dx)
            <= move_threshold as i32 && abs_i32(self.dy) <= move_threshold as i32
    }

    fn cancel(self, now_ms: u32, max_ms: u32, move_threshold: u16) -> (r: Self)
        ensures
            r == of_cancel(self, now_ms, max_ms, move_threshold),
    {
        proof {
            reveal(of_cancel);
        }
        let mut o = self;
        if !o.tap_valid(now_ms, max_ms, move_threshold) {
            o.tap_candidate = false;
        }
        if !o.hold_valid(now_ms, max_ms, move_threshold) {
            o.hold_candidate = false;
        }
        o
    }
}

// ---------------------------------------------------------------- two fingers

/// What a two-finger session has been classified as.
#[derive(Clone, Copy, Debug, PartialEq, Eq, Structural)]
pub enum TwoFingerMode {
    Undecided,
    Scroll,
    Pinch,
}

/// Centroid and distance change of one two-finger frame.
#[derive(Clone, Copy, Debug, PartialEq, Eq, Structural)]
pub struct TwoFingerStep {
    pub x: i32,
    pub y: i32,
    pub distance: i32,
}

/// Progress of a two-finger touch.
#[derive(Clone, Copy, Debug, PartialEq, Eq, Structural)]
pub struct TwoFingerState {
    pub active: bool,
    pub hold_sent: bool,
    pub tap_candidate: bool,
    pub hold_candidate: bool,
    pub tapdrag_second_touch: bool,
    pub release_pending: bool,
    pub down_ms: u32,
    pub release_pending_ms: u32,
    pub centroid_dx: i32,
    pub centroid_dy: i32,
    pub distance_delta: i32,
    pub centroid_last_x: i32,
    pub centroid_last_y: i32,
    pub distance_last: i32,
    pub metrics_stale: bool,
    pub mode: TwoFingerMode,
    pub pinch_wheel_remainder: i32,
    pub pinch_button_sent: bool,
}

pub open spec fn tf_new() -> TwoFingerState {
    TwoFingerState {
        active: false,
        hold_sent: false,
        tap_candidate: false,
        hold_candidate: false,
        tapdrag_second_touch: false,
        release_pending: false,
        down_ms: 0,
        release_pending_ms: 0,
        centroid_dx: 0,
        centroid_dy: 0,
        distance_delta: 0,
        centroid_last_x: 0,
        centroid_last_y: 0,
        distance_last: 0,
        metrics_stale: false,
        mode: TwoFingerMode::Undecided,
        pinch_wheel_remainder: 0,
        pinch_button_sent: false,
    }
}

pub open spec fn tf_start(now: u32, m: TwoFingerMetrics, tap: bool, td: bool) -> TwoFingerState {
    TwoFingerState {
        active: true,
        hold_sent: td,
        tap_candidate: tap,
        hold_candidate: td,
        tapdrag_second_touch: td,
        release_pending: false,
        down_ms: now,
        release_pending_ms: 0,
        centroid_dx: 0,
        centroid_dy: 0,
        distance_delta: 0,
        centroid_last_x: m.centroid_x,
        centroid_last_y: m.centroid_y,
        distance_last: m.distance,
        metrics_stale: false,
        mode: TwoFingerMode::Undecided,
        pinch_wheel_remainder: 0,
        pinch_button_sent: false,
    }
}

pub open spec fn tf_start_relative_scroll(now: u32) -> TwoFingerState {
    TwoFingerState {
        active: true,
        down_ms: now,
        metrics_stale: true,
        mode: TwoFingerMode::Scroll,
        ..tf_new()
    }
}

pub open spec fn tf_sync_metrics(t: TwoFingerState, m: TwoFingerMetrics) -> TwoFingerState {
    TwoFingerState {
        centroid_last_x: m.centroid_x,
        centroid_last_y: m.centroid_y,
        distance_last: m.distance,
        metrics_stale: false,
        ..t
    }
}

#[verifier::opaque]
pub open spec fn tf_update_metrics(t: TwoFingerState, m: TwoFingerMetrics) -> (TwoFingerState, TwoFingerStep) {
    let sx = arith::sat_i32(m.centroid_x - t.centroid_last_x);
    let sy = arith::sat_i32(m.centroid_y - t.centroid_last_y);
    let sd = arith::sat_i32(m.distance - t.distance_last);
    (TwoFingerState {
        centroid_last_x: m.centroid_x,
        centroid_last_y: m.centroid_y,
        distance_last: m.distance,
        centroid_dx: arith::sat_i32(t.centroid_dx + sx),
        centroid_dy: arith::sat_i32(t.centroid_dy + sy),
        distance_delta: arith::sat_i32(t.distance_delta + sd),
        metrics_stale: false,
        ..t
    }, TwoFingerStep { x: sx, y: sy, distance: sd })
}

pub open spec fn tf_still(candidate: bool, t: TwoFingerState, now: u32, max_ms: u32, mv: u16) -> bool {
    &&& candidate
    &&& t.mode == TwoFingerMode::Undecided
    &&& still_within(true, now, t.down_ms, max_ms, mv, t.centroid_dx, t.centroid_dy)
    &&& arith::sat_i32(arith::abs_int(t.distance_delta as int)) <= mv
}

#[verifier::opaque]
pub open spec fn tf_tap_valid(t: TwoFingerState, now: u32, max_ms: u32, mv: u16) -> bool {
    tf_still(t.tap_candidate, t, now, max_ms, mv)
}

#[verifier::opaque]
pub open spec fn tf_hold_valid(t: TwoFingerState, now: u32, max_ms: u32, mv: u16) -> bool {
    tf_still(t.hold_candidate, t, now, max_ms, mv)
}

#[verifier::opaque]
pub open spec fn tf_cancel(t: TwoFingerState, now: u32, max_ms: u32, mv: u16) -> TwoFingerState {
    let t1 = if !tf_tap_valid(t, now, max_ms, mv) {
        TwoFingerState { tap_candidate: false, ..t }
    } else {
        t
    };
    if !tf_hold_valid(t1, now, max_ms, mv) {
        TwoFingerState { hold_candidate: false, ..t1 }
    } else {
        t1
    }
}

/// Mode selection: pinch once the distance change reaches the pinch start
/// distance and exceeds the centroid movement; otherwise scroll once the
/// centroid moved far enough and at least twice the distance change. A
/// selected mode is kept for the rest of the session (except scroll to pinch).
#[verifier::opaque]
pub open spec fn tf_classify(t: TwoFingerState) -> TwoFingerState {
    if t.mode == TwoFingerMode::Pinch {
        t
    } else {
        let acx = arith::sat_i32(arith::abs_int(t.centroid_dx as int));
        let acy = arith::sat_i32(arith::abs_int(t.centroid_dy as int));
        let abs_center = if acx >= acy {
            acx
        } else {
            acy
        };
        let abs_distance = arith::sat_i32(arith::abs_int(t.distance_delta as int));
        let dominates = abs_center >= arith::sat_i32(abs_distance * 2);
        if abs_distance >= 100 && abs_distance > abs_center {
            TwoFingerState { mode: TwoFingerMode::Pinch, tap_candidate: false, ..t }
        } else if t.mode == TwoFingerMode::Undecided && abs_center >= 24 && dominates {
            TwoFingerState { mode: TwoFingerMode::Scroll, tap_candidate: false, ..t }
        } else {
            t
        }
    }
}

/// The wheel steps of a pinch distance change: gain 10, divisor 960, carrying
/// the remainder.
#[verifier::opaque]
pub open spec fn tf_pinch_wheel(t: TwoFingerState, step_distance: i32) -> (TwoFingerState, i16) {
    let value = arith::sat_i32(arith::sat_i32(step_distance * 10) + t.pinch_wheel_remainder);
    let wheel = arith::trunc_div(value as int, 960);
    (TwoFingerState { pinch_wheel_remainder: (value - wheel * 960) as i32, ..t }, arith::sat_i16(wheel))
}


/// A two-finger touch whose release waits for its last finger.
#[verifier::opaque]
pub open spec fn tf_pending_release(t: TwoFingerState, now: u32) -> TwoFingerState {
    TwoFingerState { release_pending: true, release_pending_ms: now, ..t }
}

/// A two-finger touch that can no longer become a hold.
#[verifier::opaque]
pub open spec fn tf_drop_hold(t: TwoFingerState) -> TwoFingerState {
    TwoFingerState { hold_candidate: false, ..t }
}

impl TwoFingerState {
    fn pending_release(self, now_ms: u32) -> (r: Self)
        ensures
            r == tf_pending_release(self, now_ms),
    {
        proof {
            reveal(tf_pending_release);
        }
        TwoFingerState { release_pending: true, release_pending_ms: now_ms, ..self }
    }

    fn drop_hold(self) -> (r: Self)
        ensures
            r == tf_drop_hold(self),
    {
        proof {
            reveal(tf_drop_hold);
        }
        TwoFingerState { hold_candidate: false, ..self }
    }

    pub fn new() -> (r: Self)
        ensures
            r == tf_new(),
    {
        TwoFingerState {
            active: false,
            hold_sent: false,
            tap_candidate: false,
            hold_candidate: false,
            tapdrag_second_touch: false,
            release_pending: false,
            down_ms: 0,
            release_pending_ms: 0,
            centroid_dx: 0,
            centroid_dy: 0,
            distance_delta: 0,
            centroid_last_x: 0,
            centroid_last_y: 0,
            distance_last: 0,
            metrics_stale: false,
            mode: TwoFingerMode::Undecided,
            pinch_wheel_remainder: 0,
            pinch_button_sent: false,
        }
    }

    fn start(now_ms: u32, metrics: TwoFingerMetrics, tap_candidate: bool, tapdrag_second_touch: bool) -> (r: Self)
        ensures
            r == tf_start(now_ms, metrics, tap_candidate, tapdrag_second_touch),
    {
        TwoFingerState {
            active: true,
            hold_sent: tapdrag_second_touch,
            tap_candidate,
            hold_candidate: tapdrag_second_touch,
            tapdrag_second_touch,
            release_pending: false,
            down_ms: now_ms,
            release_pending_ms: 0,
            centroid_dx: 0,
            centroid_dy: 0,
            distance_delta: 0,
            centroid_last_x: metrics.centroid_x,
            centroid_last_y: metrics.centroid_y,
            distance_last: metrics.distance,
            metrics_stale: false,
            mode: TwoFingerMode::Undecided,
            pinch_wheel_remainder: 0,
            pinch_button_sent: false,
        }
    }

    fn start_relative_scroll(now_ms: u32) -> (r: Self)
        ensures
            r == tf_start_relative_scroll(now_ms),
    {
        TwoFingerState {
            active: true,
            down_ms: now_ms,
            metrics_stale: true,
            mode: TwoFingerMode::Scroll,
            ..TwoFingerState::new()
        }
    }

    fn sync_metrics(self, metrics: TwoFingerMetrics) -> (r: Self)
        ensures
            r == tf_sync_metrics(self, metrics),
    {
        TwoFingerState {
            centroid_last_x: metrics.centroid_x,
            centroid_last_y: metrics.centroid_y,
            distance_last: metrics.distance,
            metrics_stale: false,
            ..self
        }
    }

    fn update_metrics(self, metrics: TwoFingerMetrics) -> (r: (Self, TwoFingerStep))
        ensures
            r == tf_update_metrics(self, metrics),
    {
        proof {
            reveal(tf_update_metrics);
        }
        let step_x = sat_sub_i32(metrics.centroid_x, self.centroid_last_x);
        let step_y = sat_sub_i32(metrics.centroid_y, self.centroid_last_y);
        let step_distance = sat_sub_i32(metrics.distance, self.distance_last);
        (
            TwoFingerState {
                centroid_last_x: metrics.centroid_x,
                centroid_last_y: metrics.centroid_y,
                distance_last: metrics.distance,
                centroid_dx: sat_add_i32(self.centroid_dx, step_x),
                centroid_dy: sat_add_i32(self.centroid_dy, step_y),
                distance_delta: sat_add_i32(self.distance_delta, step_distance),
                metrics_stale: false,
                ..self
            },
            TwoFingerStep { x: step_x, y: step_y, distance: step_distance },
        )
    }

    fn still(self, candidate: bool, now_ms: u32, max_ms: u32, move_threshold: u16) -> (r: bool)
        ensures
            r == tf_still(candidate, self, now_ms, max_ms, move_threshold),
    {
        candidate && self.mode == TwoFingerMode::Undecided && elapsed_ms(now_ms, self.down_ms) <= max_ms
            && abs_i32(self.centroid_dx) <= move_threshold as i32 && abs_i32(self.centroid_dy)
            <= move_threshold as i32 && abs_i32(self.distance_delta) <= move_threshold as i32
    }

    fn tap_valid(self, now_ms: u32, max_ms: u32, move_threshold: u16) -> (r: bool)
        ensures
            r == tf_tap_valid(self, now_ms, max_ms, move_threshold),
    {
        proof {
            reveal(tf_tap_valid);
        }
        self.still(self.tap_candidate, now_ms, max_ms, move_threshold)
    }

    fn hold_valid(self, now_ms: u32, max_ms: u32, move_threshold: u16) -> (r: bool)
        ensures
            r == tf_hold_valid(self, now_ms, max_ms, move_threshold),
    {
        proof {
            reveal(tf_hold_valid);
        }
        self.still(self.hold_candidate, now_ms, max_ms, move_threshold)
    }

    fn cancel(self, now_ms: u32, max_ms: u32, move_threshold: u16) -> (r: Self)
        ensures
            r == tf_cancel(self, now_ms, max_ms, move_threshold),
    {
        proof {
            reveal(tf_cancel);
        }
        let mut t = self;
        if !t.tap_valid(now_ms, max_ms, move_threshold) {
            t.tap_candidate = false;
        }
        if !t.hold_valid(now_ms, max_ms, move_threshold) {
            t.hold_candidate = false;
        }
        t
    }

    fn classify_mode(self) -> (r: Self)
        ensures
            r == tf_classify(self),
    {
        proof {
            reveal(tf_classify);
        }
        if self.mode == TwoFingerMode::Pinch {
            return self;
        }
        let acx = abs_i32(self.centroid_dx);
        let acy = abs_i32(self.centroid_dy);
        let abs_center = if acx >= acy {
            acx
        } else {
            acy
        };
        let abs_distance = abs_i32(self.distance_delta);
        let scroll_dominates_distance = abs_center >= sat_mul_i32(
            abs_distance,
            TWO_FINGER_SCROLL_DOMINANCE_MULTIPLIER,
        );
        if abs_distance >= TWO_FINGER_PINCH_START_DISTANCE && abs_distance > abs_center {
            TwoFingerState { mode: TwoFingerMode::Pinch, tap_candidate: false, ..self }
        } else if self.mode == TwoFingerMode::Undecided && abs_center >= TWO_FINGER_SCROLL_START_MOVE
            && scroll_dominates_distance {
            TwoFingerState { mode: TwoFingerMode::Scroll, tap_candidate: false, ..self }
        } else {
            self
        }
    }

    fn pinch_wheel(self, step_distance: i32) -> (r: (Self, i16))
        ensures
            r == tf_pinch_wheel(self, step_distance),
    {
        proof {
            reveal(tf_pinch_wheel);
        }
        let divisor: i32 = 960;
        let value = sat_add_i32(
            sat_mul_i32(step_distance, TWO_FINGER_PINCH_WHEEL_GAIN_X10),
            self.pinch_wheel_remainder,
        );
        proof {
            crate::iqs9151::motion::lemma_trunc_div(value as int, 960);
        }
        let wheel = value / divisor;
        (TwoFingerState { pinch_wheel_remainder: value - wheel * divisor, ..self }, clamp_i32_to_i16(wheel))
    }
}

// ---------------------------------------------------------------- three fingers

/// Progress of a three-finger touch.
#[derive(Clone, Copy, Debug, PartialEq, Eq, Structural)]
pub struct ThreeFingerState {
    pub active: bool,
    pub hold_sent: bool,
    pub tap_candidate: bool,
    pub hold_candidate: bool,
    pub tapdrag_second_touch: bool,
    pub release_pending: bool,
    pub down_ms: u32,
    pub release_pending_ms: u32,
    pub dx: i32,
    pub dy: i32,
    pub last_x: i32,
    pub last_y: i32,
    pub start_x: i32,
    pub start_y: i32,
    pub current_x: i32,
    pub current_y: i32,
    pub max_abs_dx: i32,
    pub max_abs_dy: i32,
    pub swipe_sent: bool,
}

pub open spec fn hf_new() -> ThreeFingerState {
    ThreeFingerState {
        active: false,
        hold_sent: false,
        tap_candidate: false,
        hold_candidate: false,
        tapdrag_second_touch: false,
        release_pending: false,
        down_ms: 0,
        release_pending_ms: 0,
        dx: 0,
        dy: 0,
        last_x: 0,
        last_y: 0,
        start_x: 0,
        start_y: 0,
        current_x: 0,
        current_y: 0,
        max_abs_dx: 0,
        max_abs_dy: 0,
        swipe_sent: false,
    }
}

pub open spec fn hf_start(now: u32, x: i32, y: i32, tap: bool, td: bool) -> ThreeFingerState {
    ThreeFingerState {
        active: true,
        hold_sent: td,
        tap_candidate: tap,
        hold_candidate: td,
        tapdrag_second_touch: td,
        release_pending: false,
        down_ms: now,
        release_pending_ms: 0,
        dx: 0,
        dy: 0,
        last_x: x,
        last_y: y,
        start_x: x,
        start_y: y,
        current_x: x,
        current_y: y,
        max_abs_dx: 0,
        max_abs_dy: 0,
        swipe_sent: false,
    }
}

#[verifier::opaque]
pub open spec fn hf_update_position(h: ThreeFingerState, x: i32, y: i32) -> ThreeFingerState {
    let ax = arith::sat_i32(arith::abs_int(arith::sat_i32(x - h.start_x) as int));
    let ay = arith::sat_i32(arith::abs_int(arith::sat_i32(y - h.start_y) as int));
    ThreeFingerState {
        dx: arith::sat_i32(h.dx + arith::sat_i32(x - h.last_x)),
        dy: arith::sat_i32(h.dy + arith::sat_i32(y - h.last_y)),
        last_x: x,
        last_y: y,
        current_x: x,
        current_y: y,
        max_abs_dx: if ax > h.max_abs_dx {
            ax
        } else {
            h.max_abs_dx
        },
        max_abs_dy: if ay > h.max_abs_dy {
            ay
        } else {
            h.max_abs_dy
        },
        ..h
    }
}

#[verifier::opaque]
pub open spec fn hf_tap_valid(h: ThreeFingerState, now: u32, max_ms: u32, mv: u16) -> bool {
    still_within(h.tap_candidate, now, h.down_ms, max_ms, mv, h.dx, h.dy)
}

#[verifier::opaque]
pub open spec fn hf_hold_valid(h: ThreeFingerState, now: u32, max_ms: u32, mv: u16) -> bool {
    still_within(h.hold_candidate, now, h.down_ms, max_ms, mv, h.dx, h.dy)
}

#[verifier::opaque]
pub open spec fn hf_cancel(h: ThreeFingerState, now: u32, max_ms: u32, mv: u16) -> ThreeFingerState {
    let h1 = if !hf_tap_valid(h, now, max_ms, mv) {
        ThreeFingerState { tap_candidate: false, ..h }
    } else {
        h
    };
    if !hf_hold_valid(h1, now, max_ms, mv) {
        ThreeFingerState { hold_candidate: false, ..h1 }
    } else {
        h1
    }
}

/// The swipe a three-finger touch has made, once its largest excursion on
/// some axis reaches the threshold: along the axis with the larger excursion,
/// in the direction from the start point to the current point.
#[verifier::opaque]
pub open spec fn hf_swipe_button(h: ThreeFingerState, threshold: u16) -> Option<TrackpadButton> {
    if h.max_abs_dx < threshold && h.max_abs_dy < threshold {
        None
    } else if h.max_abs_dx >= h.max_abs_dy {
        if h.start_x <= h.current_x {
            Some(TrackpadButton::GestureRight)
        } else {
            Some(TrackpadButton::GestureLeft)
        }
    } else if h.start_y <= h.current_y {
        Some(TrackpadButton::GestureDown)
    } else {
        Some(TrackpadButton::GestureUp)
    }
}


/// A three-finger touch whose release waits for its last fingers.
#[verifier::opaque]
pub open spec fn hf_pending_release(h: ThreeFingerState, now: u32) -> ThreeFingerState {
    ThreeFingerState { release_pending: true, release_pending_ms: now, ..h }
}

/// A three-finger touch that can no longer become a hold.
#[verifier::opaque]
pub open spec fn hf_drop_hold(h: ThreeFingerState) -> ThreeFingerState {
    ThreeFingerState { hold_candidate: false, ..h }
}

impl ThreeFingerState {
    fn pending_release(self, now_ms: u32) -> (r: Self)
        ensures
            r == hf_pending_release(self, now_ms),
    {
        proof {
            reveal(hf_pending_release);
        }
        ThreeFingerState { release_pending: true, release_pending_ms: now_ms, ..self }
    }

    fn drop_hold(self) -> (r: Self)
        ensures
            r == hf_drop_hold(self),
    {
        proof {
            reveal(hf_drop_hold);
        }
        ThreeFingerState { hold_candidate: false, ..self }
    }

    pub fn new() -> (r: Self)
        ensures
            r == hf_new(),
    {
        ThreeFingerState {
            active: false,
            hold_sent: false,
            tap_candidate: false,
            hold_candidate: false,
            tapdrag_second_touch: false,
            release_pending: false,
            down_ms: 0,
            release_pending_ms: 0,
            dx: 0,
            dy: 0,
            last_x: 0,
            last_y: 0,
            start_x: 0,
            start_y: 0,
            current_x: 0,
            current_y: 0,
            max_abs_dx: 0,
            max_abs_dy: 0,
            swipe_sent: false,
        }
    }

    fn start(now_ms: u32, x: i32, y: i32, tap_candidate: bool, tapdrag_second_touch: bool) -> (r:
        Self)
        ensures
            r == hf_start(now_ms, x, y, tap_candidate, tapdrag_second_touch),
    {
        ThreeFingerState {
            active: true,
            hold_sent: tapdrag_second_touch,
            tap_candidate,
            hold_candidate: tapdrag_second_touch,
            tapdrag_second_touch,
            release_pending: false,
            down_ms: now_ms,
            release_pending_ms: 0,
            dx: 0,
            dy: 0,
            last_x: x,
            last_y: y,
            start_x: x,
            start_y: y,
            current_x: x,
            current_y: y,
            max_abs_dx: 0,
            max_abs_dy: 0,
            swipe_sent: false,
        }
    }

    fn update_position(self, x: i32, y: i32) -> (r: Self)
        ensures
            r == hf_update_position(self, x, y),
    {
        proof {
            reveal(hf_update_position);
        }
        let ax = abs_i32(sat_sub_i32(x, self.start_x));
        let ay = abs_i32(sat_sub_i32(y, self.start_y));
        ThreeFingerState {
            dx: sat_add_i32(self.dx, sat_sub_i32(x, self.last_x)),
            dy: sat_add_i32(self.dy, sat_sub_i32(y, self.last_y)),
            last_x: x,
            last_y: y,
            current_x: x,
            current_y: y,
            max_abs_dx: if ax > self.max_abs_dx {
                ax
            } else {
                self.max_abs_dx
            },
            max_abs_dy: if ay > self.max_abs_dy {
                ay
            } else {
                self.max_abs_dy
            },
            ..self
        }
    }

    fn tap_valid(self, now_ms: u32, max_ms: u32, move_threshold: u16) -> (r: bool)
        ensures
            r == hf_tap_valid(self, now_ms, max_ms, move_threshold),
    {
        proof {
            reveal(hf_tap_valid);
        }
        self.tap_candidate && elapsed_ms(now_ms, self.down_ms) <= max_ms && abs_i32(self.dx)
            <= move_threshold as i32 && abs_i32(self.dy) <= move_threshold as i32
    }

    fn hold_valid(self, now_ms: u32, max_ms: u32, move_threshold: u16) -> (r: bool)
        ensures
            r == hf_hold_valid(self, now_ms, max_ms, move_threshold),
    {
        proof {
            reveal(hf_hold_valid);
        }
        self.hold_candidate && elapsed_ms(now_ms, self.down_ms) <= max_ms && abs_i32(self.dx)
            <= move_threshold as i32 && abs_i32(self.dy) <= move_threshold as i32
    }

    fn cancel(self, now_ms: u32, max_ms: u32, move_threshold: u16) -> (r: Self)
        ensures
            r == hf_cancel(self, now_ms, max_ms, move_threshold),
    {
        proof {
            reveal(hf_cancel);
        }
        let mut h = self;
        if !h.tap_valid(now_ms, max_ms, move_threshold) {
            h.tap_candidate = false;
        }
        if !h.hold_valid(now_ms, max_ms, move_threshold) {
            h.hold_candidate = false;
        }
        h
    }

    fn swipe_button(self, threshold: u16) -> (r: Option<TrackpadButton>)
        ensures
            r == hf_swipe_button(self, threshold),
    {
        proof {
            reveal(hf_swipe_button);
        }
        if self.max_abs_dx < threshold as i32 && self.max_abs_dy < threshold as i32 {
            return None;
        }
        if self.max_abs_dx >= self.max_abs_dy {
            if self.start_x <= self.current_x {
                Some(TrackpadButton::GestureRight)
            } else {
                Some(TrackpadButton::GestureLeft)
            }
        } else if self.start_y <= self.current_y {
            Some(TrackpadButton::GestureDown)
        } else {
            Some(TrackpadButton::GestureUp)
        }
    }
}

// ---------------------------------------------------------------- finger history

/// One remembered finger count.
#[derive(Clone, Copy, Debug, PartialEq, Eq, Structural)]
pub struct FingerHistoryEntry {
    pub ms: u32,
    pub finger_count: u8,
}

/// The finger counts of the last five frames, as a ring buffer of slots
/// `e0..e4`; `head` is the slot written next.
#[derive(Clone, Copy, Debug, PartialEq, Eq, Structural)]
pub struct FingerHistory {
    pub e0: FingerHistoryEntry,
    pub e1: FingerHistoryEntry,
    pub e2: FingerHistoryEntry,
    pub e3: FingerHistoryEntry,
    pub e4: FingerHistoryEntry,
    pub head: usize,
    pub count: usize,
}

pub open spec fn fh_wf(h: FingerHistory) -> bool {
    h.head < 5 && h.count <= 5
}

/// The empty history.
pub open spec fn fh_new() -> FingerHistory {
    let z = FingerHistoryEntry { ms: 0, finger_count: 0 };
    FingerHistory { e0: z, e1: z, e2: z, e3: z, e4: z, head: 0, count: 0 }
}

/// Slot `i` of the ring.
pub open spec fn fh_slot(h: FingerHistory, i: int) -> FingerHistoryEntry {
    if i == 0 {
        h.e0
    } else if i == 1 {
        h.e1
    } else if i == 2 {
        h.e2
    } else if i == 3 {
        h.e3
    } else {
        h.e4
    }
}

/// The entry `i` places back from the newest.
pub open spec fn fh_back(h: FingerHistory, i: int) -> FingerHistoryEntry {
    fh_slot(h, (h.head + 5 - 1 - i) % 5)
}

/// Whether, scanning from the `i`-th newest entry while entries are at most
/// `window` old, one with `fc` fingers is found.
pub open spec fn fh_recent_from(h: FingerHistory, fc: u8, now: u32, window: u32, i: int) -> bool
    decreases h.count - i,
{
    if i < 0 || i >= h.count {
        false
    } else if arith::elapsed_spec(now, fh_back(h, i).ms) > window {
        false
    } else if fh_back(h, i).finger_count == fc {
        true
    } else {
        fh_recent_from(h, fc, now, window, i + 1)
    }
}

/// Whether a frame with `fc` fingers was recorded within `window` ms.
pub open spec fn fh_has_recent(h: FingerHistory, fc: u8, now: u32, window: u32) -> bool {
    fh_recent_from(h, fc, now, window, 0)
}

/// The history after recording a frame with `fc` fingers at `now`.
#[verifier::opaque]
pub open spec fn fh_push(h: FingerHistory, fc: u8, now: u32) -> FingerHistory {
    let e = FingerHistoryEntry { ms: now, finger_count: fc };
    let h1 = if h.head == 0 {
        FingerHistory { e0: e, ..h }
    } else if h.head == 1 {
        FingerHistory { e1: e, ..h }
    } else if h.head == 2 {
        FingerHistory { e2: e, ..h }
    } else if h.head == 3 {
        FingerHistory { e3: e, ..h }
    } else {
        FingerHistory { e4: e, ..h }
    };
    FingerHistory {
        head: ((h.head + 1) % 5) as usize,
        count: if h.count < 5 {
            (h.count + 1) as usize
        } else {
            h.count
        },
        ..h1
    }
}

impl FingerHistory {
    /// An empty history.
    pub fn new() -> (r: Self)
        ensures
            r == fh_new(),
    {
        let z = FingerHistoryEntry { ms: 0, finger_count: 0 };
        FingerHistory { e0: z, e1: z, e2: z, e3: z, e4: z, head: 0, count: 0 }
    }

    fn slot(self, i: usize) -> (r: FingerHistoryEntry)
        ensures
            r == fh_slot(self, i as int),
    {
        if i == 0 {
            self.e0
        } else if i == 1 {
            self.e1
        } else if i == 2 {
            self.e2
        } else if i == 3 {
            self.e3
        } else {
            self.e4
        }
    }

    fn push(self, finger_count: u8, now_ms: u32) -> (r: Self)
        requires
            fh_wf(self),
        ensures
            r == fh_push(self, finger_count, now_ms),
            fh_wf(r),
    {
        proof {
            reveal(fh_push);
        }
        let e = FingerHistoryEntry { ms: now_ms, finger_count };
        let h1 = if self.head == 0 {
            FingerHistory { e0: e, ..self }
        } else if self.head == 1 {
            FingerHistory { e1: e, ..self }
        } else if self.head == 2 {
            FingerHistory { e2: e, ..self }
        } else if self.head == 3 {
            FingerHistory { e3: e, ..self }
        } else {
            FingerHistory { e4: e, ..self }
        };
        FingerHistory {
            head: (self.head + 1) % 5,
            count: if self.count < 5 {
                self.count + 1
            } else {
                self.count
            },
            ..h1
        }
    }

    fn has_recent(self, finger_count: u8, now_ms: u32, window_ms: u32) -> (r: bool)
        requires
            fh_wf(self),
        ensures
            r == fh_has_recent(self, finger_count, now_ms, window_ms),
    {
        let mut i: usize = 0;
        while i < self.count
            invariant
                fh_wf(self),
                i <= self.count,
                fh_recent_from(self, finger_count, now_ms, window_ms, 0) == fh_recent_from(
                    self,
                    finger_count,
                    now_ms,
                    window_ms,
                    i as int,
                ),
            decreases self.count - i,
        {
            let entry = self.slot((self.head + 5 - 1 - i) % 5);
            if elapsed_ms(now_ms, entry.ms) > window_ms {
                return false;
            }
            if entry.finger_count == finger_count {
                return true;
            }
            i = i + 1;
        }
        false
    }
}

// ---------------------------------------------------------------- recognizer

/// Whether a pending tap-drag re-entry is still within its gap.
pub open spec fn pending_spec(pending: bool, pending_ms: u32, now: u32, max_gap: u32) -> bool {
    pending && arith::elapsed_spec(now, pending_ms) <= max_gap
}

/// Consuming a pending tap-drag re-entry: whether it was still within its
/// gap, and the cleared pending flag and time (unchanged when none was pending).
pub open spec fn take_pending_spec(pending: bool, pending_ms: u32, now: u32, max_gap: u32) -> (bool, bool, u32) {
    if !pending {
        (false, pending, pending_ms)
    } else {
        (arith::elapsed_spec(now, pending_ms) <= max_gap, false, 0)
    }
}

/// Whether a deferred hold armed for `pending_fc` fingers has expired: more
/// fingers arrived, the same count came back too late, or the pad stayed
/// empty for the whole gap.
pub open spec fn hold_expired_spec(fc: u8, pending_fc: u8, elapsed: u32, max_gap: u32) -> bool {
    fc > pending_fc || (fc == pending_fc && elapsed > max_gap) || (fc == 0 && elapsed >= max_gap)
}

fn take_pending_tapdrag_second_touch(pending: bool, pending_ms: u32, now_ms: u32, max_gap_ms: u32) -> (r: (bool, bool, u32))
    ensures
        r == take_pending_spec(pending, pending_ms, now_ms, max_gap_ms),
{
    if !pending {
        return (false, pending, pending_ms);
    }
    let elapsed = elapsed_ms(now_ms, pending_ms);
    (elapsed <= max_gap_ms, false, 0)
}

fn pending_tapdrag_second_touch(pending: bool, pending_ms: u32, now_ms: u32, max_gap_ms: u32) -> (r: bool)
    ensures
        r == pending_spec(pending, pending_ms, now_ms, max_gap_ms),
{
    pending && elapsed_ms(now_ms, pending_ms) <= max_gap_ms
}

fn deferred_hold_expired(finger_count: u8, pending_finger_count: u8, elapsed: u32, max_gap_ms: u32) -> (r: bool)
    ensures
        r == hold_expired_spec(finger_count, pending_finger_count, elapsed, max_gap_ms),
{
    finger_count > pending_finger_count || (finger_count == pending_finger_count && elapsed
        > max_gap_ms) || (finger_count == 0 && elapsed >= max_gap_ms)
}

/// Frame-by-frame gesture recognizer state.
#[derive(Clone, Copy, Debug, PartialEq, Eq, Structural)]
pub struct TrackpadGestureRecognizer {
    pub config: TrackpadGestureConfig,
    pub one_finger: OneFingerState,
    pub two_finger: TwoFingerState,
    pub three_finger: ThreeFingerState,
    pub prev_frame: CoordinateFrame,
    pub finger_history: FingerHistory,
    pub two_finger_one_lead_valid: bool,
    pub three_finger_one_lead_valid: bool,
    pub three_finger_two_lead_valid: bool,
    pub suppress_cursor_tail: bool,
    pub hold_button: Option<TrackpadButton>,
    pub one_finger_click_pending: bool,
    pub one_finger_click_pending_ms: u32,
    pub two_finger_click_pending: bool,
    pub two_finger_click_pending_ms: u32,
    pub three_finger_click_pending: bool,
    pub three_finger_click_pending_ms: u32,
}

/// The recognizer's internal consistency: its finger history ring is well formed.
pub open spec fn rg_wf(s: TrackpadGestureRecognizer) -> bool {
    fh_wf(s.finger_history)
}

/// A recognizer that has seen nothing.
pub open spec fn rg_new(config: TrackpadGestureConfig) -> TrackpadGestureRecognizer {
    TrackpadGestureRecognizer {
        config,
        one_finger: of_new(),
        two_finger: tf_new(),
        three_finger: hf_new(),
        prev_frame: frame::empty_frame(),
        finger_history: fh_new(),
        two_finger_one_lead_valid: false,
        three_finger_one_lead_valid: false,
        three_finger_two_lead_valid: false,
        suppress_cursor_tail: false,
        hold_button: None,
        one_finger_click_pending: false,
        one_finger_click_pending_ms: 0,
        two_finger_click_pending: false,
        two_finger_click_pending_ms: 0,
        three_finger_click_pending: false,
        three_finger_click_pending_ms: 0,
    }
}

type Rg = TrackpadGestureRecognizer;

type Ev = Option<TrackpadGestureEvent>;

#[verifier::opaque]
pub open spec fn rg_arm(s: Rg, b: TrackpadButton, now: u32) -> Rg {
    match b {
        TrackpadButton::LeftClick => Rg { one_finger_click_pending: true, one_finger_click_pending_ms: now, ..s },
        TrackpadButton::RightClick => Rg { two_finger_click_pending: true, two_finger_click_pending_ms: now, ..s },
        TrackpadButton::MiddleClick => Rg { three_finger_click_pending: true, three_finger_click_pending_ms: now, ..s },
        _ => s,
    }
}

/// A tap: release whatever is held, or else press `b`, hold it and arm its
/// tap-drag re-entry window.
#[verifier::opaque]
pub open spec fn rg_emit_hold_press(s: Rg, b: TrackpadButton, now: u32) -> (Rg, Ev) {
    match s.hold_button {
        Some(held) => (Rg { hold_button: None, ..s }, Some(TrackpadGestureEvent::Button { button: held, pressed: false })),
        None => (rg_arm(Rg { hold_button: Some(b), ..s }, b, now), Some(TrackpadGestureEvent::Button { button: b, pressed: true })),
    }
}

/// Release `b` if it is the held button.
#[verifier::opaque]
pub open spec fn rg_release_hold(s: Rg, b: TrackpadButton) -> (Rg, Ev) {
    if s.hold_button == Some(b) {
        (Rg { hold_button: None, ..s }, Some(TrackpadGestureEvent::Button { button: b, pressed: false }))
    } else {
        (s, None)
    }
}

#[verifier::opaque]
pub open spec fn rg_clear_pending(s: Rg, b: TrackpadButton) -> Rg {
    match b {
        TrackpadButton::LeftClick => Rg { one_finger_click_pending: false, one_finger_click_pending_ms: 0, ..s },
        TrackpadButton::RightClick => Rg { two_finger_click_pending: false, two_finger_click_pending_ms: 0, ..s },
        TrackpadButton::MiddleClick => Rg { three_finger_click_pending: false, three_finger_click_pending_ms: 0, ..s },
        _ => s,
    }
}

#[verifier::opaque]
pub open spec fn rg_release_deferred_hold(s: Rg, b: TrackpadButton) -> (Rg, Ev) {
    rg_release_hold(rg_clear_pending(s, b), b)
}

/// A second tap during a tap-drag: release-and-click if `b` is held, else click.
#[verifier::opaque]
pub open spec fn rg_release_hold_and_click(s: Rg, b: TrackpadButton) -> (Rg, TrackpadGestureEvent) {
    if s.hold_button == Some(b) {
        (Rg { hold_button: None, ..s }, TrackpadGestureEvent::ReleaseAndClick(b))
    } else {
        (s, TrackpadGestureEvent::Click(b))
    }
}

/// A tap may start from an empty previous frame or right after one.
#[verifier::opaque]
pub open spec fn rg_tap_start_allowed(s: Rg, prev: CoordinateFrame, now: u32) -> bool {
    frame::finger_count_spec(prev) == 0 || fh_has_recent(s.finger_history, 0, now, 30)
}

/// Release deferred holds whose re-entry windows have run out.
#[verifier::opaque]
pub open spec fn rg_release_pending_holds(s: Rg, fc: u8, now: u32) -> (Rg, Ev) {
    let (s1, e1) = if s.one_finger_click_pending && hold_expired_spec(fc, 1, arith::elapsed_spec(now, s.one_finger_click_pending_ms), 160) {
        rg_release_deferred_hold(s, TrackpadButton::LeftClick)
    } else {
        (s, None)
    };
    if e1 is Some {
        (s1, e1)
    } else {
        let (s2, e2) = if s1.two_finger_click_pending && hold_expired_spec(fc, 2, arith::elapsed_spec(now, s1.two_finger_click_pending_ms), 200) {
            rg_release_deferred_hold(s1, TrackpadButton::RightClick)
        } else {
            (s1, None)
        };
        if e2 is Some {
            (s2, e2)
        } else if s2.three_finger_click_pending {
            let el = arith::elapsed_spec(now, s2.three_finger_click_pending_ms);
            if fc == 3 && el > 200 {
                rg_release_deferred_hold(s2, TrackpadButton::MiddleClick)
            } else if fc != 0 && fc != 3 {
                if el < 200 {
                    (s2, Some(TrackpadGestureEvent::DeferredHoldPending))
                } else {
                    rg_release_deferred_hold(s2, TrackpadButton::MiddleClick)
                }
            } else if fc == 0 && el >= 200 {
                rg_release_deferred_hold(s2, TrackpadButton::MiddleClick)
            } else {
                (s2, None)
            }
        } else {
            (s2, None)
        }
    }
}

#[verifier::opaque]
pub open spec fn rg_update_one(s: Rg, frame: CoordinateFrame, prev: CoordinateFrame, now: u32) -> (Rg, Ev) {
    let fc = frame::finger_count_spec(frame);
    let one_now = fc == 1;
    let have_xy = if one_now {
        frame::finger1_position_spec(frame, prev, s.config.axis_transform)
    } else {
        None
    };
    let o = s.one_finger;
    let cfg = s.config;
    if !o.active && one_now {
        match have_xy {
            None => (s, None),
            Some(p) => {
                let (taken, np, nms) = take_pending_spec(s.one_finger_click_pending, s.one_finger_click_pending_ms, now, 160);
                let s1 = Rg { one_finger_click_pending: np, one_finger_click_pending_ms: nms, ..s };
                let tap = !taken && rg_tap_start_allowed(s1, prev, now);
                (Rg { one_finger: of_start(now, p.0, p.1, tap, taken), ..s1 }, None)
            },
        }
    } else if !o.active {
        (s, None)
    } else if one_now {
        let o1 = match have_xy {
            Some(p) => of_update_position(o, p.0, p.1),
            None => o,
        };
        (Rg { one_finger: of_cancel(o1, now, cfg.one_finger_tap_max_ms, cfg.one_finger_tap_move), ..s }, None)
    } else if o.tapdrag_second_touch {
        let second = fc == 0 && of_hold_valid(o, now, cfg.one_finger_tap_max_ms, cfg.one_finger_tap_move);
        let s1 = Rg { one_finger: of_new(), suppress_cursor_tail: true, ..s };
        if o.hold_sent {
            if second {
                let (s2, e) = rg_release_hold_and_click(s1, TrackpadButton::LeftClick);
                (s2, Some(e))
            } else {
                rg_release_hold(s1, TrackpadButton::LeftClick)
            }
        } else {
            (s1, None)
        }
    } else {
        let tap = fc == 0 && of_tap_valid(o, now, cfg.one_finger_tap_max_ms, cfg.one_finger_tap_move);
        let s1 = Rg { one_finger: of_new(), ..s };
        if tap {
            rg_emit_hold_press(s1, TrackpadButton::LeftClick, now)
        } else {
            (s1, None)
        }
    }
}

/// The two-finger frame step while the touch continues.
#[verifier::opaque]
pub open spec fn rg_two_continue(s: Rg, frame: CoordinateFrame, prev: CoordinateFrame, now: u32) -> (Rg, Ev) {
    let cfg = s.config;
    let t = s.two_finger;
    let have_xy = frame::two_finger_metrics_spec(frame, prev, cfg.axis_transform);
    let zero = TwoFingerStep { x: 0, y: 0, distance: 0 };
    let (synced, t1, step) = match have_xy {
        Some(m) => if t.metrics_stale {
            (true, tf_sync_metrics(t, m), zero)
        } else {
            let (t2, st) = tf_update_metrics(t, m);
            (false, t2, st)
        },
        None => (false, t, zero),
    };
    if synced {
        (Rg { two_finger: t1, ..s }, None)
    } else {
        let t3 = tf_cancel(t1, now, cfg.two_finger_tap_max_ms, cfg.two_finger_tap_move);
        if t3.tapdrag_second_touch {
            (Rg { two_finger: t3, ..s }, None)
        } else {
            rg_two_continue_tail(s, t3, frame, step)
        }
    }
}

/// What a continuing two-finger touch reports once its metrics are in step
/// and no tap-drag second touch is under way.
#[verifier::opaque]
pub open spec fn rg_two_continue_tail(s: Rg, t3: TwoFingerState, frame: CoordinateFrame, step: TwoFingerStep) -> (Rg, Ev) {
    let cfg = s.config;
    let confident = frame::finger_count_spec(frame) == 2 && frame::finger1_valid_spec(frame) && frame::finger2_valid_spec(frame);
    let rel = if !confident && t3.mode != TwoFingerMode::Pinch {
        frame::relative_scroll_spec(frame, cfg.axis_transform, if t3.mode == TwoFingerMode::Scroll {
            0
        } else {
            8
        })
    } else {
        None
    };
    match rel {
        Some(d) => (Rg {
            two_finger: TwoFingerState {
                metrics_stale: true,
                mode: TwoFingerMode::Scroll,
                tap_candidate: false,
                hold_candidate: false,
                release_pending: false,
                ..t3
            },
            ..s
        }, Some(TrackpadGestureEvent::Scroll(d))),
        None => {
            let t5 = TwoFingerState { release_pending: false, ..tf_classify(t3) };
            if t5.mode == TwoFingerMode::Scroll {
                (Rg { two_finger: t5, ..s }, Some(TrackpadGestureEvent::Scroll(TrackpadScrollDelta { x: arith::sat_i16(step.x as int), y: arith::sat_i16(step.y as int) })))
            } else if t5.mode == TwoFingerMode::Pinch {
                if !t5.pinch_button_sent {
                    let (t7, w) = tf_pinch_wheel(TwoFingerState { pinch_button_sent: true, ..t5 }, step.distance);
                    (Rg { two_finger: t7, ..s }, Some(TrackpadGestureEvent::PinchStarted(w)))
                } else {
                    let (t7, w) = tf_pinch_wheel(t5, step.distance);
                    (Rg { two_finger: t7, ..s }, if w != 0 {
                        Some(TrackpadGestureEvent::PinchWheel(w))
                    } else {
                        None
                    })
                }
            } else {
                (Rg { two_finger: t5, ..s }, None)
            }
        },
    }
}

/// Ending a two-finger touch that is waiting for its release to complete.
#[verifier::opaque]
pub open spec fn rg_two_end_pending(s: Rg, fc: u8, now: u32) -> (Rg, Ev) {
    let cfg = s.config;
    let t = s.two_finger;
    let pm = arith::elapsed_spec(now, t.release_pending_ms);
    if fc == 1 && pm <= 150 {
        (Rg { suppress_cursor_tail: true, ..s }, None)
    } else {
        let tap = fc == 0 && pm <= 150 && tf_tap_valid(t, now, cfg.two_finger_tap_max_ms, cfg.two_finger_tap_move);
        let s1 = Rg { two_finger: tf_new(), ..s };
        if tap {
            rg_emit_hold_press(s1, TrackpadButton::RightClick, now)
        } else {
            (s1, None)
        }
    }
}

/// Ending the second touch of a two-finger tap-drag.
#[verifier::opaque]
pub open spec fn rg_two_end_tapdrag(s: Rg, fc: u8, now: u32) -> (Rg, Ev) {
    let cfg = s.config;
    let t = s.two_finger;
    let second = fc == 0 && tf_hold_valid(t, now, cfg.two_finger_tap_max_ms, cfg.two_finger_tap_move);
    if fc > 0 {
        (Rg { two_finger: tf_drop_hold(t), ..s }, None)
    } else {
        let s1 = Rg { two_finger: tf_new(), suppress_cursor_tail: true, ..s };
        if t.hold_sent {
            if second {
                let (s2, e) = rg_release_hold_and_click(s1, TrackpadButton::RightClick);
                (s2, Some(e))
            } else {
                rg_release_hold(s1, TrackpadButton::RightClick)
            }
        } else {
            (s1, None)
        }
    }
}

/// Ending an unclassified two-finger touch: a tap either waits for the last
/// finger or presses the right button.
#[verifier::opaque]
pub open spec fn rg_two_end_tap(s: Rg, fc: u8, now: u32) -> (Rg, Ev) {
    let cfg = s.config;
    let t = s.two_finger;
    let tap = tf_tap_valid(t, now, cfg.two_finger_tap_max_ms, cfg.two_finger_tap_move);
    if tap && fc == 1 {
        (Rg { two_finger: tf_pending_release(t, now), suppress_cursor_tail: true, ..s }, None)
    } else if tap && fc == 0 {
        rg_emit_hold_press(Rg { two_finger: tf_new(), ..s }, TrackpadButton::RightClick, now)
    } else {
        (Rg { two_finger: tf_new(), ..s }, None)
    }
}

/// The two-finger step once fewer or more than two fingers remain.
#[verifier::opaque]
pub open spec fn rg_two_end(s: Rg, fc: u8, now: u32) -> (Rg, Ev) {
    let t = s.two_finger;
    if t.release_pending {
        rg_two_end_pending(s, fc, now)
    } else if t.mode == TwoFingerMode::Scroll {
        (Rg { suppress_cursor_tail: true, two_finger: tf_new(), ..s }, Some(TrackpadGestureEvent::ScrollEnded))
    } else if t.mode == TwoFingerMode::Pinch {
        (Rg { suppress_cursor_tail: true, two_finger: tf_new(), ..s }, Some(TrackpadGestureEvent::Button { button: TrackpadButton::Pinch, pressed: false }))
    } else if t.tapdrag_second_touch {
        rg_two_end_tapdrag(s, fc, now)
    } else {
        rg_two_end_tap(s, fc, now)
    }
}

/// The first frame of a two-finger touch.
#[verifier::opaque]
pub open spec fn rg_two_begin(s: Rg, frame: CoordinateFrame, prev: CoordinateFrame, now: u32) -> (Rg, Ev) {
    let cfg = s.config;
    let confident = frame::finger_count_spec(frame) == 2 && frame::finger1_valid_spec(frame) && frame::finger2_valid_spec(frame);
    let reentry = pending_spec(s.two_finger_click_pending, s.two_finger_click_pending_ms, now, 200);
    match frame::two_finger_metrics_spec(frame, prev, cfg.axis_transform) {
        None => if !reentry {
            match frame::relative_scroll_spec(frame, cfg.axis_transform, 8) {
                Some(d) => (Rg { two_finger: tf_start_relative_scroll(now), ..s }, Some(TrackpadGestureEvent::Scroll(d))),
                None => (s, None),
            }
        } else {
            (s, None)
        },
        Some(m) => {
            let (taken, np, nms) = take_pending_spec(s.two_finger_click_pending, s.two_finger_click_pending_ms, now, 200);
            let s1 = Rg { two_finger_click_pending: np, two_finger_click_pending_ms: nms, ..s };
            let rel = if taken || confident {
                None
            } else {
                frame::relative_scroll_spec(frame, cfg.axis_transform, 8)
            };
            let tap = !taken && (rg_tap_start_allowed(s1, prev, now) || s1.two_finger_one_lead_valid);
            let t1 = tf_start(now, m, tap, taken);
            let s2 = Rg { two_finger: t1, two_finger_one_lead_valid: false, ..s1 };
            match rel {
                Some(d) => (Rg {
                    two_finger: TwoFingerState { metrics_stale: true, mode: TwoFingerMode::Scroll, tap_candidate: false, hold_candidate: false, ..t1 },
                    ..s2
                }, Some(TrackpadGestureEvent::Scroll(d))),
                None => (s2, None),
            }
        },
    }
}

#[verifier::opaque]
pub open spec fn rg_update_two(s: Rg, frame: CoordinateFrame, prev: CoordinateFrame, now: u32) -> (Rg, Ev) {
    let fc = frame::finger_count_spec(frame);
    if !s.two_finger.active && fc == 2 {
        rg_two_begin(s, frame, prev, now)
    } else if !s.two_finger.active {
        (Rg { two_finger_one_lead_valid: false, ..s }, None)
    } else if fc == 2 {
        rg_two_continue(Rg { two_finger_one_lead_valid: false, ..s }, frame, prev, now)
    } else {
        rg_two_end(Rg { two_finger_one_lead_valid: false, ..s }, fc, now)
    }
}

/// The three-finger step once fewer or more than three fingers remain.
#[verifier::opaque]
pub open spec fn rg_three_end(s: Rg, fc: u8, now: u32) -> (Rg, Ev) {
    let cfg = s.config;
    let h = s.three_finger;
    if h.tapdrag_second_touch {
        let second = fc == 0 && hf_hold_valid(h, now, cfg.three_finger_tap_max_ms, cfg.three_finger_tap_move);
        if fc > 0 {
            (Rg { three_finger: hf_drop_hold(h), ..s }, None)
        } else {
            let s1 = Rg { three_finger: hf_new(), suppress_cursor_tail: true, ..s };
            if h.hold_sent {
                if second {
                    let (s2, e) = rg_release_hold_and_click(s1, TrackpadButton::MiddleClick);
                    (s2, Some(e))
                } else {
                    rg_release_hold(s1, TrackpadButton::MiddleClick)
                }
            } else {
                (s1, None)
            }
        }
    } else if h.release_pending {
        let pm = arith::elapsed_spec(now, h.release_pending_ms);
        if fc > 0 && fc < 3 && pm <= 150 {
            (Rg { suppress_cursor_tail: true, ..s }, None)
        } else {
            let tap = fc == 0 && pm <= 150 && !h.hold_sent && !h.swipe_sent && hf_tap_valid(h, now, cfg.three_finger_tap_max_ms, cfg.three_finger_tap_move);
            let s1 = Rg { three_finger: hf_new(), ..s };
            if tap {
                rg_emit_hold_press(s1, TrackpadButton::MiddleClick, now)
            } else {
                (s1, None)
            }
        }
    } else if !h.hold_sent && !h.swipe_sent && hf_tap_valid(h, now, cfg.three_finger_tap_max_ms, cfg.three_finger_tap_move) && fc > 0 && fc < 3 {
        (Rg { three_finger: hf_pending_release(h, now), suppress_cursor_tail: true, ..s }, None)
    } else if !h.hold_sent && !h.swipe_sent && hf_tap_valid(h, now, cfg.three_finger_tap_max_ms, cfg.three_finger_tap_move) && fc == 0 {
        rg_emit_hold_press(Rg { three_finger: hf_new(), ..s }, TrackpadButton::MiddleClick, now)
    } else {
        (Rg { three_finger: hf_new(), ..s }, None)
    }
}

/// The first frame of a three-finger touch.
#[verifier::opaque]
pub open spec fn rg_three_begin(s: Rg, frame: CoordinateFrame, prev: CoordinateFrame, now: u32) -> (Rg, Ev) {
    let cfg = s.config;
    match frame::finger1_position_spec(frame, prev, cfg.axis_transform) {
        None => (s, None),
        Some(p) => {
            let (taken, np, nms) = take_pending_spec(s.three_finger_click_pending, s.three_finger_click_pending_ms, now, 200);
            let s1 = Rg { three_finger_click_pending: np, three_finger_click_pending_ms: nms, ..s };
            let tap = !taken && (rg_tap_start_allowed(s1, prev, now) || s1.three_finger_one_lead_valid || s1.three_finger_two_lead_valid);
            (Rg { three_finger: hf_start(now, p.0, p.1, tap, taken), three_finger_one_lead_valid: false, three_finger_two_lead_valid: false, ..s1 }, None)
        },
    }
}

/// A three-finger frame while the touch continues: track movement, and
/// report a swipe once.
#[verifier::opaque]
pub open spec fn rg_three_continue(s: Rg, frame: CoordinateFrame, prev: CoordinateFrame, now: u32) -> (Rg, Ev) {
    let cfg = s.config;
    let h = s.three_finger;
    let h1 = match frame::finger1_position_spec(frame, prev, cfg.axis_transform) {
        Some(p) => hf_update_position(h, p.0, p.1),
        None => h,
    };
    let h2 = hf_cancel(h1, now, cfg.three_finger_tap_max_ms, cfg.three_finger_tap_move);
    if h2.tapdrag_second_touch {
        (Rg { three_finger: h2, ..s }, None)
    } else {
        let h3 = ThreeFingerState { release_pending: false, ..h2 };
        if !h3.swipe_sent && !h3.hold_sent {
            match hf_swipe_button(h3, cfg.three_finger_swipe_move) {
                Some(b) => (Rg { three_finger: ThreeFingerState { swipe_sent: true, tap_candidate: false, ..h3 }, ..s }, Some(TrackpadGestureEvent::Click(b))),
                None => (Rg { three_finger: h3, ..s }, None),
            }
        } else {
            (Rg { three_finger: h3, ..s }, None)
        }
    }
}

#[verifier::opaque]
pub open spec fn rg_update_three(s: Rg, frame: CoordinateFrame, prev: CoordinateFrame, now: u32) -> (Rg, Ev) {
    let fc = frame::finger_count_spec(frame);
    if !s.three_finger.active && fc == 3 {
        rg_three_begin(s, frame, prev, now)
    } else {
        let s0 = Rg { three_finger_one_lead_valid: false, three_finger_two_lead_valid: false, ..s };
        if !s.three_finger.active {
            (s0, None)
        } else if fc == 3 {
            rg_three_continue(s0, frame, prev, now)
        } else {
            rg_three_end(s0, fc, now)
        }
    }
}

#[verifier::opaque]
pub open spec fn rg_stage_suppress(s: Rg, fc: u8, pfc: u8) -> Rg {
    let s1 = if pfc == 2 && fc == 1 {
        Rg { suppress_cursor_tail: true, ..s }
    } else {
        s
    };
    if fc == 0 || fc >= 2 {
        Rg { suppress_cursor_tail: false, ..s1 }
    } else {
        s1
    }
}

/// Hand-over of a one-finger touch to three fingers; `Some` means the frame
/// ends here with the inner event.
#[verifier::opaque]
pub open spec fn rg_stage_three_one(s: Rg, fc: u8, now: u32) -> (Rg, Option<Ev>) {
    if fc == 3 && s.one_finger.active {
        let lead = of_tap_valid(s.one_finger, now, 120, s.config.one_finger_tap_move);
        let s1 = Rg { three_finger_one_lead_valid: lead, ..s };
        if s1.one_finger.hold_sent {
            let (s2, e) = rg_release_hold(Rg { one_finger: of_new(), suppress_cursor_tail: true, ..s1 }, TrackpadButton::LeftClick);
            (s2, Some(e))
        } else {
            (Rg { one_finger: of_new(), ..s1 }, None)
        }
    } else {
        (Rg { three_finger_one_lead_valid: false, ..s }, None)
    }
}

/// Hand-over of a two-finger touch to three fingers.
#[verifier::opaque]
pub open spec fn rg_stage_three_two(s: Rg, fc: u8, now: u32) -> (Rg, Option<Ev>) {
    if fc == 3 && s.two_finger.active {
        let t = s.two_finger;
        let lead = tf_tap_valid(t, now, 120, s.config.two_finger_tap_move);
        let s1 = Rg { three_finger_two_lead_valid: lead, ..s };
        let ev = if t.mode == TwoFingerMode::Scroll {
            Some(TrackpadGestureEvent::ScrollEnded)
        } else if t.mode == TwoFingerMode::Pinch {
            Some(TrackpadGestureEvent::Button { button: TrackpadButton::Pinch, pressed: false })
        } else {
            None
        };
        if t.hold_sent {
            let (s2, e) = rg_release_hold(Rg { two_finger: tf_new(), two_finger_one_lead_valid: false, suppress_cursor_tail: true, ..s1 }, TrackpadButton::RightClick);
            (s2, Some(e))
        } else {
            let s2 = Rg { two_finger: tf_new(), two_finger_one_lead_valid: false, ..s1 };
            if ev is Some {
                (s2, Some(ev))
            } else {
                (s2, None)
            }
        }
    } else {
        (Rg { three_finger_two_lead_valid: false, ..s }, None)
    }
}

/// Hand-over of a one-finger touch to two fingers.
#[verifier::opaque]
pub open spec fn rg_stage_two_one(s: Rg, fc: u8, now: u32) -> (Rg, Option<Ev>) {
    if fc == 2 && s.one_finger.active {
        let lead = of_tap_valid(s.one_finger, now, 120, s.config.one_finger_tap_move);
        let s1 = Rg { two_finger_one_lead_valid: lead, ..s };
        if s1.one_finger.hold_sent {
            let (s2, e) = rg_release_hold(Rg { one_finger: of_new(), suppress_cursor_tail: true, ..s1 }, TrackpadButton::LeftClick);
            (s2, Some(e))
        } else {
            (Rg { one_finger: of_new(), ..s1 }, None)
        }
    } else if fc != 2 {
        (Rg { two_finger_one_lead_valid: false, ..s }, None)
    } else {
        (s, None)
    }
}

/// Finish sessions that the finger count left, then step the session the
/// current finger count belongs to.
#[verifier::opaque]
pub open spec fn rg_stage_dispatch(s: Rg, frame: CoordinateFrame, prev: CoordinateFrame, now: u32) -> (Rg, Ev) {
    let fc = frame::finger_count_spec(frame);
    let (s1, e1) = if fc != 1 && s.one_finger.active {
        rg_update_one(s, frame, prev, now)
    } else {
        (s, None)
    };
    let (s2, e2) = if fc != 2 && s1.two_finger.active && e1 is None {
        rg_update_two(s1, frame, prev, now)
    } else {
        (s1, e1)
    };
    let (s3, e3) = if fc != 3 && s2.three_finger.active && e2 is None {
        rg_update_three(s2, frame, prev, now)
    } else {
        (s2, e2)
    };
    if e3 is Some {
        (s3, e3)
    } else if fc == 1 {
        if s3.two_finger.release_pending || s3.three_finger.release_pending {
            (s3, None)
        } else {
            rg_update_one(s3, frame, prev, now)
        }
    } else if fc == 2 {
        if s3.three_finger.release_pending {
            (s3, None)
        } else {
            rg_update_two(s3, frame, prev, now)
        }
    } else if fc == 3 {
        rg_update_three(s3, frame, prev, now)
    } else {
        (s3, None)
    }
}

#[verifier::opaque]
pub open spec fn rg_process(s: Rg, frame: CoordinateFrame, prev: CoordinateFrame, now: u32) -> (Rg, Ev) {
    let fc = frame::finger_count_spec(frame);
    let s1 = rg_stage_suppress(s, fc, frame::finger_count_spec(prev));
    let (s2, e2) = rg_release_pending_holds(s1, fc, now);
    if e2 is Some {
        (s2, e2)
    } else {
        let (s3, r3) = rg_stage_three_one(s2, fc, now);
        match r3 {
            Some(e) => (s3, e),
            None => {
                let (s4, r4) = rg_stage_three_two(s3, fc, now);
                match r4 {
                    Some(e) => (s4, e),
                    None => {
                        let (s5, r5) = rg_stage_two_one(s4, fc, now);
                        match r5 {
                            Some(e) => (s5, e),
                            None => rg_stage_dispatch(s5, frame, prev, now),
                        }
                    },
                }
            },
        }
    }
}

/// The frame remembered for the next step: finger positions of an empty frame
/// are cleared, invalid positions keep the previous one, and finger 2 is
/// cleared unless two or more fingers are down.
#[verifier::opaque]
pub open spec fn rg_prev_frame(frame: CoordinateFrame, prev: CoordinateFrame) -> CoordinateFrame {
    let zero = FingerPosition { x: 0, y: 0 };
    let fc = frame::finger_count_spec(frame);
    if fc == 0 {
        CoordinateFrame { finger1: zero, finger2: zero, ..frame }
    } else {
        let f1 = if frame::finger1_valid_spec(frame) {
            frame.finger1
        } else {
            prev.finger1
        };
        if fc < 2 {
            CoordinateFrame { finger1: f1, finger2: zero, ..frame }
        } else {
            let f2 = if frame::finger2_valid_spec(frame) {
                frame.finger2
            } else {
                prev.finger2
            };
            CoordinateFrame { finger1: f1, finger2: f2, ..frame }
        }
    }
}

/// One recognizer step: the event a frame produces and the next state.
#[verifier::opaque]
pub open spec fn rg_update(s: Rg, frame: CoordinateFrame, now: u32) -> (Rg, Ev) {
    let (s1, e) = rg_process(s, frame, s.prev_frame, now);
    (Rg {
        prev_frame: rg_prev_frame(frame, s.prev_frame),
        finger_history: fh_push(s1.finger_history, frame::finger_count_spec(frame), now),
        ..s1
    }, e)
}

impl TrackpadGestureRecognizer {
    /// A recognizer with the given thresholds that has seen nothing.
    pub fn new(config: TrackpadGestureConfig) -> (r: Self)
        ensures
            r == rg_new(config),
            rg_wf(r),
    {
        TrackpadGestureRecognizer {
            config,
            one_finger: OneFingerState::new(),
            two_finger: TwoFingerState::new(),
            three_finger: ThreeFingerState::new(),
            prev_frame: CoordinateFrame::empty(),
            finger_history: FingerHistory::new(),
            two_finger_one_lead_valid: false,
            three_finger_one_lead_valid: false,
            three_finger_two_lead_valid: false,
            suppress_cursor_tail: false,
            hold_button: None,
            one_finger_click_pending: false,
            one_finger_click_pending_ms: 0,
            two_finger_click_pending: false,
            two_finger_click_pending_ms: 0,
            three_finger_click_pending: false,
            three_finger_click_pending_ms: 0,
        }
    }

    /// A recognizer with the default thresholds.
    pub fn with_defaults() -> (r: Self)
        ensures
            r == rg_new(default_gesture_config()),
            rg_wf(r),
    {
        TrackpadGestureRecognizer::new(TrackpadGestureConfig::default())
    }

    /// The thresholds in use.
    pub fn config(&self) -> (r: TrackpadGestureConfig)
        ensures
            r == self.config,
    {
        self.config
    }

    /// Forget every touch, hold and pending tap-drag; keep the thresholds.
    pub fn reset(&mut self)
        ensures
            *final(self) == rg_new(old(self).config),
            rg_wf(*final(self)),
    {
        *self = TrackpadGestureRecognizer::new(self.config);
    }

    /// Whether cursor motion is being suppressed after a multi-finger gesture.
    pub fn cursor_suppressed(self) -> (r: bool)
        ensures
            r == self.suppress_cursor_tail,
    {
        self.suppress_cursor_tail
    }

    fn arm_deferred_hold(self, button: TrackpadButton, now_ms: u32) -> (r: Self)
        ensures
            r == rg_arm(self, button, now_ms),
            r.finger_history == self.finger_history,
    {
        proof {
            reveal(rg_arm);
        }
        let mut s = self;
        match button {
            TrackpadButton::LeftClick => {
                s.one_finger_click_pending = true;
                s.one_finger_click_pending_ms = now_ms;
            },
            TrackpadButton::RightClick => {
                s.two_finger_click_pending = true;
                s.two_finger_click_pending_ms = now_ms;
            },
            TrackpadButton::MiddleClick => {
                s.three_finger_click_pending = true;
                s.three_finger_click_pending_ms = now_ms;
            },
            _ => {},
        }
        s
    }

    fn emit_hold_press(self, button: TrackpadButton, now_ms: u32) -> (r: (Self, Ev))
        ensures
            r == rg_emit_hold_press(self, button, now_ms),
            r.0.finger_history == self.finger_history,
    {
        proof {
            reveal(rg_emit_hold_press);
        }
        let mut s = self;
        match s.hold_button {
            Some(held) => {
                s.hold_button = None;
                (s, Some(TrackpadGestureEvent::Button { button: held, pressed: false }))
            },
            None => {
                s.hold_button = Some(button);
                (s.arm_deferred_hold(button, now_ms), Some(TrackpadGestureEvent::Button { button, pressed: true }))
            },
        }
    }

    fn release_hold(self, button: TrackpadButton) -> (r: (Self, Ev))
        ensures
            r == rg_release_hold(self, button),
            r.0.finger_history == self.finger_history,
    {
        proof {
            reveal(rg_release_hold);
        }
        let mut s = self;
        match s.hold_button {
            Some(held) => {
                if held == button {
                    s.hold_button = None;
                    (s, Some(TrackpadGestureEvent::Button { button, pressed: false }))
                } else {
                    (s, None)
                }
            },
            None => (s, None),
        }
    }

    fn clear_pending_for_button(self, button: TrackpadButton) -> (r: Self)
        ensures
            r == rg_clear_pending(self, button),
            r.finger_history == self.finger_history,
    {
        proof {
            reveal(rg_clear_pending);
        }
        let mut s = self;
        match button {
            TrackpadButton::LeftClick => {
                s.one_finger_click_pending = false;
                s.one_finger_click_pending_ms = 0;
            },
            TrackpadButton::RightClick => {
                s.two_finger_click_pending = false;
                s.two_finger_click_pending_ms = 0;
            },
            TrackpadButton::MiddleClick => {
                s.three_finger_click_pending = false;
                s.three_finger_click_pending_ms = 0;
            },
            _ => {},
        }
        s
    }

    fn release_deferred_hold(self, button: TrackpadButton) -> (r: (Self, Ev))
        ensures
            r == rg_release_deferred_hold(self, button),
            r.0.finger_history == self.finger_history,
    {
        proof {
            reveal(rg_release_deferred_hold);
        }
        self.clear_pending_for_button(button).release_hold(button)
    }

    fn release_hold_and_click(self, button: TrackpadButton) -> (r: (Self, TrackpadGestureEvent))
        ensures
            r == rg_release_hold_and_click(self, button),
            r.0.finger_history == self.finger_history,
    {
        proof {
            reveal(rg_release_hold_and_click);
        }
        let mut s = self;
        match s.hold_button {
            Some(held) => {
                if held == button {
                    s.hold_button = None;
                    (s, TrackpadGestureEvent::ReleaseAndClick(button))
                } else {
                    (s, TrackpadGestureEvent::Click(button))
                }
            },
            None => (s, TrackpadGestureEvent::Click(button)),
        }
    }

    fn tap_start_allowed(self, prev_frame: CoordinateFrame, now_ms: u32) -> (r: bool)
        requires
            rg_wf(self),
        ensures
            r == rg_tap_start_allowed(self, prev_frame, now_ms),
    {
        proof {
            reveal(rg_tap_start_allowed);
        }
        prev_frame.finger_count() == 0 || self.finger_history.has_recent(
            0,
            now_ms,
            TAP_REENTRY_WINDOW_MS,
        )
    }

    fn release_pending_deferred_holds(self, finger_count: u8, now_ms: u32) -> (r: (Self, Ev))
        ensures
            r == rg_release_pending_holds(self, finger_count, now_ms),
            r.0.finger_history == self.finger_history,
    {
        proof {
            reveal(rg_release_pending_holds);
        }
        let mut s = self;
        if s.one_finger_click_pending {
            let elapsed = elapsed_ms(now_ms, s.one_finger_click_pending_ms);
            if deferred_hold_expired(finger_count, 1, elapsed, ONE_FINGER_TAPDRAG_GAP_MAX_MS) {
                let (s1, e) = s.release_deferred_hold(TrackpadButton::LeftClick);
                if e.is_some() {
                    return (s1, e);
                }
                s = s1;
            }
        }
        if s.two_finger_click_pending {
            let elapsed = elapsed_ms(now_ms, s.two_finger_click_pending_ms);
            if deferred_hold_expired(finger_count, 2, elapsed, TWO_FINGER_TAPDRAG_GAP_MAX_MS) {
                let (s2, e) = s.release_deferred_hold(TrackpadButton::RightClick);
                if e.is_some() {
                    return (s2, e);
                }
                s = s2;
            }
        }
        if s.three_finger_click_pending {
            let elapsed = elapsed_ms(now_ms, s.three_finger_click_pending_ms);
            if finger_count == 3 && elapsed > THREE_FINGER_TAPDRAG_GAP_MAX_MS {
                return s.release_deferred_hold(TrackpadButton::MiddleClick);
            } else if finger_count != 0 && finger_count != 3 {
                if elapsed < THREE_FINGER_TAPDRAG_GAP_MAX_MS {
                    return (s, Some(TrackpadGestureEvent::DeferredHoldPending));
                }
                return s.release_deferred_hold(TrackpadButton::MiddleClick);
            } else if finger_count == 0 && elapsed >= THREE_FINGER_TAPDRAG_GAP_MAX_MS {
                return s.release_deferred_hold(TrackpadButton::MiddleClick);
            }
        }
        (s, None)
    }

    fn update_one_finger(self, frame: CoordinateFrame, prev_frame: CoordinateFrame, now_ms: u32) -> (r: (Self, Ev))
        requires
            rg_wf(self),
        ensures
            r == rg_update_one(self, frame, prev_frame, now_ms),
            r.0.finger_history == self.finger_history,
    {
        proof {
            reveal(rg_update_one);
        }
        let mut s = self;
        let fc = frame.finger_count();
        let one_now = fc == 1;
        let have_xy = if one_now {
            get_finger1_position(frame, prev_frame, s.config.axis_transform)
        } else {
            None
        };
        let o = s.one_finger;
        let cfg = s.config;
        if !o.active && one_now {
            match have_xy {
                None => {
                    return (s, None);
                },
                Some(p) => {
                    let (taken, np, nms) = take_pending_tapdrag_second_touch(
                        s.one_finger_click_pending,
                        s.one_finger_click_pending_ms,
                        now_ms,
                        ONE_FINGER_TAPDRAG_GAP_MAX_MS,
                    );
                    s.one_finger_click_pending = np;
                    s.one_finger_click_pending_ms = nms;
                    let tap = !taken && s.tap_start_allowed(prev_frame, now_ms);
                    s.one_finger = OneFingerState::start(now_ms, p.0, p.1, tap, taken);
                    return (s, None);
                },
            }
        }
        if !o.active {
            return (s, None);
        }
        if one_now {
            let o1 = match have_xy {
                Some(p) => o.update_position(p.0, p.1),
                None => o,
            };
            s.one_finger = o1.cancel(now_ms, cfg.one_finger_tap_max_ms, cfg.one_finger_tap_move);
            return (s, None);
        }
        if o.tapdrag_second_touch {
            let second = fc == 0 && o.hold_valid(
                now_ms,
                cfg.one_finger_tap_max_ms,
                cfg.one_finger_tap_move,
            );
            s.one_finger = OneFingerState::new();
            s.suppress_cursor_tail = true;
            if o.hold_sent {
                if second {
                    let (s2, e) = s.release_hold_and_click(TrackpadButton::LeftClick);
                    return (s2, Some(e));
                } else {
                    return s.release_hold(TrackpadButton::LeftClick);
                }
            } else {
                return (s, None);
            }
        }
        let tap = fc == 0 && o.tap_valid(now_ms, cfg.one_finger_tap_max_ms, cfg.one_finger_tap_move);
        s.one_finger = OneFingerState::new();
        if tap {
            s.emit_hold_press(TrackpadButton::LeftClick, now_ms)
        } else {
            (s, None)
        }
    }

    fn two_finger_begin(self, frame: CoordinateFrame, prev_frame: CoordinateFrame, now_ms: u32) -> (r: (Self, Ev))
        requires
            rg_wf(self),
        ensures
            r == rg_two_begin(self, frame, prev_frame, now_ms),
            r.0.finger_history == self.finger_history,
    {
        proof {
            reveal(rg_two_begin);
        }
        let mut s = self;
        let cfg = s.config;
        let confident = two_finger_positions_confident(frame);
        let reentry = pending_tapdrag_second_touch(
            s.two_finger_click_pending,
            s.two_finger_click_pending_ms,
            now_ms,
            TWO_FINGER_TAPDRAG_GAP_MAX_MS,
        );
        match get_two_finger_metrics(frame, prev_frame, cfg.axis_transform) {
            None => {
                if !reentry {
                    match two_finger_relative_scroll_delta(
                        frame,
                        cfg.axis_transform,
                        TWO_FINGER_RELATIVE_SCROLL_START_MOVE,
                    ) {
                        Some(d) => {
                            s.two_finger = TwoFingerState::start_relative_scroll(now_ms);
                            return (s, Some(TrackpadGestureEvent::Scroll(d)));
                        },
                        None => {
                            return (s, None);
                        },
                    }
                }
                (s, None)
            },
            Some(m) => {
                let (taken, np, nms) = take_pending_tapdrag_second_touch(
                    s.two_finger_click_pending,
                    s.two_finger_click_pending_ms,
                    now_ms,
                    TWO_FINGER_TAPDRAG_GAP_MAX_MS,
                );
                s.two_finger_click_pending = np;
                s.two_finger_click_pending_ms = nms;
                let rel = if taken || confident {
                    None
                } else {
                    two_finger_relative_scroll_delta(
                        frame,
                        cfg.axis_transform,
                        TWO_FINGER_RELATIVE_SCROLL_START_MOVE,
                    )
                };
                let tap = !taken && (s.tap_start_allowed(prev_frame, now_ms)
                    || s.two_finger_one_lead_valid);
                let t1 = TwoFingerState::start(now_ms, m, tap, taken);
                s.two_finger = t1;
                s.two_finger_one_lead_valid = false;
                match rel {
                    Some(d) => {
                        s.two_finger = TwoFingerState {
                            metrics_stale: true,
                            mode: TwoFingerMode::Scroll,
                            tap_candidate: false,
                            hold_candidate: false,
                            ..t1
                        };
                        (s, Some(TrackpadGestureEvent::Scroll(d)))
                    },
                    None => (s, None),
                }
            },
        }
    }

    fn two_finger_continue(self, frame: CoordinateFrame, prev_frame: CoordinateFrame, now_ms: u32) -> (r: (Self, Ev))
        ensures
            r == rg_two_continue(self, frame, prev_frame, now_ms),
            r.0.finger_history == self.finger_history,
    {
        proof {
            reveal(rg_two_continue);
        }
        let mut s = self;
        let cfg = s.config;
        let t = s.two_finger;
        let zero = TwoFingerStep { x: 0, y: 0, distance: 0 };
        let (synced, t1, step) = match get_two_finger_metrics(frame, prev_frame, cfg.axis_transform) {
            Some(m) => if t.metrics_stale {
                (true, t.sync_metrics(m), zero)
            } else {
                let (t2, st) = t.update_metrics(m);
                (false, t2, st)
            },
            None => (false, t, zero),
        };
        if synced {
            s.two_finger = t1;
            return (s, None);
        }
        let t3 = t1.cancel(now_ms, cfg.two_finger_tap_max_ms, cfg.two_finger_tap_move);
        if t3.tapdrag_second_touch {
            s.two_finger = t3;
            return (s, None);
        }
        s.two_finger_continue_tail(t3, frame, step)
    }

    fn two_finger_continue_tail(self, t3: TwoFingerState, frame: CoordinateFrame, step: TwoFingerStep) -> (r: (Self, Ev))
        ensures
            r == rg_two_continue_tail(self, t3, frame, step),
            r.0.finger_history == self.finger_history,
    {
        proof {
            reveal(rg_two_continue_tail);
        }
        let mut s = self;
        let cfg = s.config;
        let confident = two_finger_positions_confident(frame);
        let rel = if !confident && t3.mode != TwoFingerMode::Pinch {
            let min_move: i16 = if t3.mode == TwoFingerMode::Scroll {
                0
            } else {
                TWO_FINGER_RELATIVE_SCROLL_START_MOVE
            };
            two_finger_relative_scroll_delta(frame, cfg.axis_transform, min_move)
        } else {
            None
        };
        match rel {
            Some(d) => {
                s.two_finger = TwoFingerState {
                    metrics_stale: true,
                    mode: TwoFingerMode::Scroll,
                    tap_candidate: false,
                    hold_candidate: false,
                    release_pending: false,
                    ..t3
                };
                (s, Some(TrackpadGestureEvent::Scroll(d)))
            },
            None => {
                let t5 = TwoFingerState { release_pending: false, ..t3.classify_mode() };
                if t5.mode == TwoFingerMode::Scroll {
                    s.two_finger = t5;
                    (s, Some(
                        TrackpadGestureEvent::Scroll(
                            TrackpadScrollDelta {
                                x: clamp_i32_to_i16(step.x),
                                y: clamp_i32_to_i16(step.y),
                            },
                        ),
                    ))
                } else if t5.mode == TwoFingerMode::Pinch {
                    if !t5.pinch_button_sent {
                        let (t7, w) = TwoFingerState { pinch_button_sent: true, ..t5 }.pinch_wheel(
                            step.distance,
                        );
                        s.two_finger = t7;
                        (s, Some(TrackpadGestureEvent::PinchStarted(w)))
                    } else {
                        let (t7, w) = t5.pinch_wheel(step.distance);
                        s.two_finger = t7;
                        if w != 0 {
                            (s, Some(TrackpadGestureEvent::PinchWheel(w)))
                        } else {
                            (s, None)
                        }
                    }
                } else {
                    s.two_finger = t5;
                    (s, None)
                }
            },
        }
    }

    fn two_finger_end_pending(self, finger_count: u8, now_ms: u32) -> (r: (Self, Ev))
        ensures
            r == rg_two_end_pending(self, finger_count, now_ms),
            r.0.finger_history == self.finger_history,
    {
        proof {
            reveal(rg_two_end_pending);
        }
        let mut s = self;
        let cfg = s.config;
        let t = s.two_finger;
        let fc = finger_count;
        let pm = elapsed_ms(now_ms, t.release_pending_ms);
        if fc == 1 && pm <= TWO_FINGER_RELEASE_PENDING_MAX_MS {
            s.suppress_cursor_tail = true;
            return (s, None);
        }
        let tap = fc == 0 && pm <= TWO_FINGER_RELEASE_PENDING_MAX_MS && t.tap_valid(
            now_ms,
            cfg.two_finger_tap_max_ms,
            cfg.two_finger_tap_move,
        );
        s.two_finger = TwoFingerState::new();
        if tap {
            s.emit_hold_press(TrackpadButton::RightClick, now_ms)
        } else {
            (s, None)
        }
    }

    fn two_finger_end_tapdrag(self, finger_count: u8, now_ms: u32) -> (r: (Self, Ev))
        ensures
            r == rg_two_end_tapdrag(self, finger_count, now_ms),
            r.0.finger_history == self.finger_history,
    {
        proof {
            reveal(rg_two_end_tapdrag);
        }
        let mut s = self;
        let cfg = s.config;
        let t = s.two_finger;
        let fc = finger_count;
        let second = fc == 0 && t.hold_valid(
            now_ms,
            cfg.two_finger_tap_max_ms,
            cfg.two_finger_tap_move,
        );
        if fc > 0 {
            s.two_finger = t.drop_hold();
            return (s, None);
        }
        s.two_finger = TwoFingerState::new();
        s.suppress_cursor_tail = true;
        if t.hold_sent {
            if second {
                let (s2, e) = s.release_hold_and_click(TrackpadButton::RightClick);
                (s2, Some(e))
            } else {
                s.release_hold(TrackpadButton::RightClick)
            }
        } else {
            (s, None)
        }
    }

    fn two_finger_end_tap(self, finger_count: u8, now_ms: u32) -> (r: (Self, Ev))
        ensures
            r == rg_two_end_tap(self, finger_count, now_ms),
            r.0.finger_history == self.finger_history,
    {
        proof {
            reveal(rg_two_end_tap);
        }
        let mut s = self;
        let cfg = s.config;
        let t = s.two_finger;
        let fc = finger_count;
        let tap = t.tap_valid(now_ms, cfg.two_finger_tap_max_ms, cfg.two_finger_tap_move);
        if tap && fc == 1 {
            s.two_finger = t.pending_release(now_ms);
            s.suppress_cursor_tail = true;
            return (s, None);
        }
        if tap && fc == 0 {
            s.two_finger = TwoFingerState::new();
            return s.emit_hold_press(TrackpadButton::RightClick, now_ms);
        }
        s.two_finger = TwoFingerState::new();
        (s, None)
    }

    fn two_finger_end(self, finger_count: u8, now_ms: u32) -> (r: (Self, Ev))
        ensures
            r == rg_two_end(self, finger_count, now_ms),
            r.0.finger_history == self.finger_history,
    {
        proof {
            reveal(rg_two_end);
        }
        let mut s = self;
        let t = s.two_finger;
        if t.release_pending {
            return s.two_finger_end_pending(finger_count, now_ms);
        }
        if t.mode == TwoFingerMode::Scroll {
            s.suppress_cursor_tail = true;
            s.two_finger = TwoFingerState::new();
            return (s, Some(TrackpadGestureEvent::ScrollEnded));
        }
        if t.mode == TwoFingerMode::Pinch {
            s.suppress_cursor_tail = true;
            s.two_finger = TwoFingerState::new();
            return (s, Some(TrackpadGestureEvent::Button { button: TrackpadButton::Pinch, pressed: false }));
        }
        if t.tapdrag_second_touch {
            return s.two_finger_end_tapdrag(finger_count, now_ms);
        }
        s.two_finger_end_tap(finger_count, now_ms)
    }

    fn update_two_finger(self, frame: CoordinateFrame, prev_frame: CoordinateFrame, now_ms: u32) -> (r: (Self, Ev))
        requires
            rg_wf(self),
        ensures
            r == rg_update_two(self, frame, prev_frame, now_ms),
            r.0.finger_history == self.finger_history,
    {
        proof {
            reveal(rg_update_two);
        }
        let mut s = self;
        let fc = frame.finger_count();
        if !s.two_finger.active && fc == 2 {
            return s.two_finger_begin(frame, prev_frame, now_ms);
        }
        s.two_finger_one_lead_valid = false;
        if !s.two_finger.active {
            return (s, None);
        }
        if fc == 2 {
            s.two_finger_continue(frame, prev_frame, now_ms)
        } else {
            s.two_finger_end(fc, now_ms)
        }
    }

    fn three_finger_end(self, finger_count: u8, now_ms: u32) -> (r: (Self, Ev))
        ensures
            r == rg_three_end(self, finger_count, now_ms),
            r.0.finger_history == self.finger_history,
    {
        proof {
            reveal(rg_three_end);
        }
        let mut s = self;
        let cfg = s.config;
        let h = s.three_finger;
        let fc = finger_count;
        if h.tapdrag_second_touch {
            let second = fc == 0 && h.hold_valid(
                now_ms,
                cfg.three_finger_tap_max_ms,
                cfg.three_finger_tap_move,
            );
            if fc > 0 {
                s.three_finger = h.drop_hold();
                return (s, None);
            }
            s.three_finger = ThreeFingerState::new();
            s.suppress_cursor_tail = true;
            if h.hold_sent {
                if second {
                    let (s2, e) = s.release_hold_and_click(TrackpadButton::MiddleClick);
                    return (s2, Some(e));
                } else {
                    return s.release_hold(TrackpadButton::MiddleClick);
                }
            } else {
                return (s, None);
            }
        }
        if h.release_pending {
            let pm = elapsed_ms(now_ms, h.release_pending_ms);
            if fc > 0 && fc < 3 && pm <= THREE_FINGER_RELEASE_PENDING_MAX_MS {
                s.suppress_cursor_tail = true;
                return (s, None);
            }
            let tap = fc == 0 && pm <= THREE_FINGER_RELEASE_PENDING_MAX_MS && !h.hold_sent
                && !h.swipe_sent && h.tap_valid(
                now_ms,
                cfg.three_finger_tap_max_ms,
                cfg.three_finger_tap_move,
            );
            s.three_finger = ThreeFingerState::new();
            if tap {
                return s.emit_hold_press(TrackpadButton::MiddleClick, now_ms);
            } else {
                return (s, None);
            }
        }
        let tap = !h.hold_sent && !h.swipe_sent && h.tap_valid(
            now_ms,
            cfg.three_finger_tap_max_ms,
            cfg.three_finger_tap_move,
        );
        if tap && fc > 0 && fc < 3 {
            s.three_finger = h.pending_release(now_ms);
            s.suppress_cursor_tail = true;
            return (s, None);
        }
        if tap && fc == 0 {
            s.three_finger = ThreeFingerState::new();
            return s.emit_hold_press(TrackpadButton::MiddleClick, now_ms);
        }
        s.three_finger = ThreeFingerState::new();
        (s, None)
    }

    fn three_finger_begin(self, frame: CoordinateFrame, prev_frame: CoordinateFrame, now_ms: u32) -> (r: (Self, Ev))
        requires
            rg_wf(self),
        ensures
            r == rg_three_begin(self, frame, prev_frame, now_ms),
            r.0.finger_history == self.finger_history,
    {
        proof {
            reveal(rg_three_begin);
        }
        let mut s = self;
        match get_finger1_position(frame, prev_frame, s.config.axis_transform) {
            None => (s, None),
            Some(p) => {
                let (taken, np, nms) = take_pending_tapdrag_second_touch(
                    s.three_finger_click_pending,
                    s.three_finger_click_pending_ms,
                    now_ms,
                    THREE_FINGER_TAPDRAG_GAP_MAX_MS,
                );
                s.three_finger_click_pending = np;
                s.three_finger_click_pending_ms = nms;
                let tap = !taken && (s.tap_start_allowed(prev_frame, now_ms)
                    || s.three_finger_one_lead_valid || s.three_finger_two_lead_valid);
                s.three_finger = ThreeFingerState::start(now_ms, p.0, p.1, tap, taken);
                s.three_finger_one_lead_valid = false;
                s.three_finger_two_lead_valid = false;
                (s, None)
            },
        }
    }

    fn three_finger_continue(self, frame: CoordinateFrame, prev_frame: CoordinateFrame, now_ms: u32) -> (r: (Self, Ev))
        ensures
            r == rg_three_continue(self, frame, prev_frame, now_ms),
            r.0.finger_history == self.finger_history,
    {
        proof {
            reveal(rg_three_continue);
        }
        let mut s = self;
        let cfg = s.config;
        let h = s.three_finger;
        let h1 = match get_finger1_position(frame, prev_frame, cfg.axis_transform) {
            Some(p) => h.update_position(p.0, p.1),
            None => h,
        };
        let h2 = h1.cancel(now_ms, cfg.three_finger_tap_max_ms, cfg.three_finger_tap_move);
        if h2.tapdrag_second_touch {
            s.three_finger = h2;
            return (s, None);
        }
        let h3 = ThreeFingerState { release_pending: false, ..h2 };
        if !h3.swipe_sent && !h3.hold_sent {
            match h3.swipe_button(cfg.three_finger_swipe_move) {
                Some(b) => {
                    s.three_finger = ThreeFingerState { swipe_sent: true, tap_candidate: false, ..h3 };
                    return (s, Some(TrackpadGestureEvent::Click(b)));
                },
                None => {
                    s.three_finger = h3;
                    return (s, None);
                },
            }
        }
        s.three_finger = h3;
        (s, None)
    }

    fn update_three_finger(self, frame: CoordinateFrame, prev_frame: CoordinateFrame, now_ms: u32) -> (r: (Self, Ev))
        requires
            rg_wf(self),
        ensures
            r == rg_update_three(self, frame, prev_frame, now_ms),
            r.0.finger_history == self.finger_history,
    {
        proof {
            reveal(rg_update_three);
        }
        let mut s = self;
        let fc = frame.finger_count();
        if !s.three_finger.active && fc == 3 {
            return s.three_finger_begin(frame, prev_frame, now_ms);
        }
        s.three_finger_one_lead_valid = false;
        s.three_finger_two_lead_valid = false;
        if !s.three_finger.active {
            return (s, None);
        }
        if fc == 3 {
            s.three_finger_continue(frame, prev_frame, now_ms)
        } else {
            s.three_finger_end(fc, now_ms)
        }
    }

    fn stage_suppress(self, finger_count: u8, prev_finger_count: u8) -> (r: Self)
        ensures
            r == rg_stage_suppress(self, finger_count, prev_finger_count),
            r.finger_history == self.finger_history,
    {
        proof {
            reveal(rg_stage_suppress);
        }
        let mut s = self;
        if prev_finger_count == 2 && finger_count == 1 {
            s.suppress_cursor_tail = true;
        }
        if finger_count == 0 || finger_count >= 2 {
            s.suppress_cursor_tail = false;
        }
        s
    }

    fn stage_three_one(self, finger_count: u8, now_ms: u32) -> (r: (Self, Option<Ev>))
        ensures
            r == rg_stage_three_one(self, finger_count, now_ms),
            r.0.finger_history == self.finger_history,
    {
        proof {
            reveal(rg_stage_three_one);
        }
        let mut s = self;
        if finger_count == 3 && s.one_finger.active {
            s.three_finger_one_lead_valid = s.one_finger.tap_valid(
                now_ms,
                THREE_FINGER_ONE_LEAD_MAX_MS,
                s.config.one_finger_tap_move,
            );
            if s.one_finger.hold_sent {
                s.one_finger = OneFingerState::new();
                s.suppress_cursor_tail = true;
                let (s2, e) = s.release_hold(TrackpadButton::LeftClick);
                return (s2, Some(e));
            }
            s.one_finger = OneFingerState::new();
            (s, None)
        } else {
            s.three_finger_one_lead_valid = false;
            (s, None)
        }
    }

    fn stage_three_two(self, finger_count: u8, now_ms: u32) -> (r: (Self, Option<Ev>))
        ensures
            r == rg_stage_three_two(self, finger_count, now_ms),
            r.0.finger_history == self.finger_history,
    {
        proof {
            reveal(rg_stage_three_two);
        }
        let mut s = self;
        if finger_count == 3 && s.two_finger.active {
            let t = s.two_finger;
            s.three_finger_two_lead_valid = t.tap_valid(
                now_ms,
                THREE_FINGER_TWO_LEAD_MAX_MS,
                s.config.two_finger_tap_move,
            );
            let ev = if t.mode == TwoFingerMode::Scroll {
                Some(TrackpadGestureEvent::ScrollEnded)
            } else if t.mode == TwoFingerMode::Pinch {
                Some(TrackpadGestureEvent::Button { button: TrackpadButton::Pinch, pressed: false })
            } else {
                None
            };
            if t.hold_sent {
                s.two_finger = TwoFingerState::new();
                s.two_finger_one_lead_valid = false;
                s.suppress_cursor_tail = true;
                let (s2, e) = s.release_hold(TrackpadButton::RightClick);
                return (s2, Some(e));
            }
            s.two_finger = TwoFingerState::new();
            s.two_finger_one_lead_valid = false;
            if ev.is_some() {
                (s, Some(ev))
            } else {
                (s, None)
            }
        } else {
            s.three_finger_two_lead_valid = false;
            (s, None)
        }
    }

    fn stage_two_one(self, finger_count: u8, now_ms: u32) -> (r: (Self, Option<Ev>))
        ensures
            r == rg_stage_two_one(self, finger_count, now_ms),
            r.0.finger_history == self.finger_history,
    {
        proof {
            reveal(rg_stage_two_one);
        }
        let mut s = self;
        if finger_count == 2 && s.one_finger.active {
            s.two_finger_one_lead_valid = s.one_finger.tap_valid(
                now_ms,
                TWO_FINGER_ONE_LEAD_MAX_MS,
                s.config.one_finger_tap_move,
            );
            if s.one_finger.hold_sent {
                s.one_finger = OneFingerState::new();
                s.suppress_cursor_tail = true;
                let (s2, e) = s.release_hold(TrackpadButton::LeftClick);
                return (s2, Some(e));
            }
            s.one_finger = OneFingerState::new();
            (s, None)
        } else if finger_count != 2 {
            s.two_finger_one_lead_valid = false;
            (s, None)
        } else {
            (s, None)
        }
    }

    fn stage_dispatch(self, frame: CoordinateFrame, prev_frame: CoordinateFrame, now_ms: u32) -> (r: (Self, Ev))
        requires
            rg_wf(self),
        ensures
            r == rg_stage_dispatch(self, frame, prev_frame, now_ms),
            r.0.finger_history == self.finger_history,
    {
        proof {
            reveal(rg_stage_dispatch);
        }
        let fc = frame.finger_count();
        let (s1, e1) = if fc != 1 && self.one_finger.active {
            self.update_one_finger(frame, prev_frame, now_ms)
        } else {
            (self, None)
        };
        let (s2, e2) = if fc != 2 && s1.two_finger.active && e1.is_none() {
            s1.update_two_finger(frame, prev_frame, now_ms)
        } else {
            (s1, e1)
        };
        let (s3, e3) = if fc != 3 && s2.three_finger.active && e2.is_none() {
            s2.update_three_finger(frame, prev_frame, now_ms)
        } else {
            (s2, e2)
        };
        if e3.is_some() {
            return (s3, e3);
        }
        if fc == 1 {
            if s3.two_finger.release_pending || s3.three_finger.release_pending {
                (s3, None)
            } else {
                s3.update_one_finger(frame, prev_frame, now_ms)
            }
        } else if fc == 2 {
            if s3.three_finger.release_pending {
                (s3, None)
            } else {
                s3.update_two_finger(frame, prev_frame, now_ms)
            }
        } else if fc == 3 {
            s3.update_three_finger(frame, prev_frame, now_ms)
        } else {
            (s3, None)
        }
    }

    fn process_frame(self, frame: CoordinateFrame, prev_frame: CoordinateFrame, now_ms: u32) -> (r: (Self, Ev))
        requires
            rg_wf(self),
        ensures
            r == rg_process(self, frame, prev_frame, now_ms),
            r.0.finger_history == self.finger_history,
    {
        proof {
            reveal(rg_process);
        }
        let fc = frame.finger_count();
        let s1 = self.stage_suppress(fc, prev_frame.finger_count());
        let (s2, e2) = s1.release_pending_deferred_holds(fc, now_ms);
        if e2.is_some() {
            return (s2, e2);
        }
        let (s3, r3) = s2.stage_three_one(fc, now_ms);
        if let Some(e) = r3 {
            return (s3, e);
        }
        let (s4, r4) = s3.stage_three_two(fc, now_ms);
        if let Some(e) = r4 {
            return (s4, e);
        }
        let (s5, r5) = s4.stage_two_one(fc, now_ms);
        if let Some(e) = r5 {
            return (s5, e);
        }
        s5.stage_dispatch(frame, prev_frame, now_ms)
    }

    fn update_prev_frame(frame: CoordinateFrame, prev_frame: CoordinateFrame) -> (r: CoordinateFrame)
        ensures
            r == rg_prev_frame(frame, prev_frame),
    {
        proof {
            reveal(rg_prev_frame);
        }
        let zero = FingerPosition { x: 0, y: 0 };
        let fc = frame.finger_count();
        if fc == 0 {
            return CoordinateFrame { finger1: zero, finger2: zero, ..frame };
        }
        let f1 = if finger1_valid(frame) {
            frame.finger1
        } else {
            prev_frame.finger1
        };
        if fc < 2 {
            return CoordinateFrame { finger1: f1, finger2: zero, ..frame };
        }
        let f2 = if finger2_valid(frame) {
            frame.finger2
        } else {
            prev_frame.finger2
        };
        CoordinateFrame { finger1: f1, finger2: f2, ..frame }
    }

    /// Feed one coordinate frame taken at `now_ms`; returns the gesture event
    /// the frame completes, if any.
    pub fn update(&mut self, frame: CoordinateFrame, now_ms: u32) -> (r: Option<TrackpadGestureEvent>)
        requires
            rg_wf(*old(self)),
        ensures
            (*final(self), r) == rg_update(*old(self), frame, now_ms),
            rg_wf(*final(self)),
    {
        proof {
            reveal(rg_update);
        }
        let s = *self;
        let finger_count = frame.finger_count();
        let prev_frame = s.prev_frame;
        let (s1, event) = s.process_frame(frame, prev_frame, now_ms);
        let history = s1.finger_history.push(finger_count, now_ms);
        *self = TrackpadGestureRecognizer {
            prev_frame: Self::update_prev_frame(frame, prev_frame),
            finger_history: history,
            ..s1
        };
        event
    }
}

// ---------------------------------------------------------------- hold balance

/// The buttons a tap can press and hold: left, right and middle click.
pub open spec fn is_click_button(b: TrackpadButton) -> bool {
    b == TrackpadButton::LeftClick || b == TrackpadButton::RightClick || b == TrackpadButton::MiddleClick
}

/// Nothing is held, or one of the click buttons is.
pub open spec fn held_is_click_or_none(h: Option<TrackpadButton>) -> bool {
    match h {
        None => true,
        Some(b) => is_click_button(b),
    }
}

/// How a recognizer step may change the held button: a press event, always
/// of a click button, takes hold of its button from an empty hold, a release
/// (other than the pinch key) or release-and-click gives up exactly the held
/// button, and any other outcome leaves the hold as it was; afterwards nothing
/// or a click button is held.
pub open spec fn hold_step_ok(s: Rg, s2: Rg, e: Ev) -> bool {
    &&& held_is_click_or_none(s2.hold_button)
    &&& match e {
        Some(TrackpadGestureEvent::Button { button, pressed }) => if pressed {
            is_click_button(button) && s.hold_button is None && s2.hold_button == Some(button)
        } else if button == TrackpadButton::Pinch {
            s2.hold_button == s.hold_button
        } else {
            s.hold_button == Some(button) && s2.hold_button is None
        },
        Some(TrackpadGestureEvent::ReleaseAndClick(button)) => s.hold_button == Some(button)
            && s2.hold_button is None,
        _ => s2.hold_button == s.hold_button,
    }
}

proof fn lemma_hold_arm(s: Rg, b: TrackpadButton, now: u32)
    ensures
        rg_arm(s, b, now).hold_button == s.hold_button,
{
    reveal(rg_arm);
}

proof fn lemma_hold_clear_pending(s: Rg, b: TrackpadButton)
    ensures
        rg_clear_pending(s, b).hold_button == s.hold_button,
{
    reveal(rg_clear_pending);
}

proof fn lemma_hold_emit(s: Rg, b: TrackpadButton, now: u32)
    requires
        held_is_click_or_none(s.hold_button),
        is_click_button(b),
    ensures
        hold_step_ok(s, rg_emit_hold_press(s, b, now).0, rg_emit_hold_press(s, b, now).1),
{
    reveal(rg_emit_hold_press);
    lemma_hold_arm(Rg { hold_button: Some(b), ..s }, b, now);
}

proof fn lemma_hold_release(s: Rg, b: TrackpadButton)
    requires
        held_is_click_or_none(s.hold_button),
        b != TrackpadButton::Pinch,
    ensures
        hold_step_ok(s, rg_release_hold(s, b).0, rg_release_hold(s, b).1),
{
    reveal(rg_release_hold);
}

proof fn lemma_hold_release_deferred(s: Rg, b: TrackpadButton)
    requires
        held_is_click_or_none(s.hold_button),
        b != TrackpadButton::Pinch,
    ensures
        hold_step_ok(s, rg_release_deferred_hold(s, b).0, rg_release_deferred_hold(s, b).1),
{
    reveal(rg_release_deferred_hold);
    lemma_hold_clear_pending(s, b);
    lemma_hold_release(rg_clear_pending(s, b), b);
}

proof fn lemma_hold_release_and_click(s: Rg, b: TrackpadButton)
    requires
        held_is_click_or_none(s.hold_button),
    ensures
        hold_step_ok(s, rg_release_hold_and_click(s, b).0, Some(rg_release_hold_and_click(s, b).1)),
{
    reveal(rg_release_hold_and_click);
}

proof fn lemma_hold_pending_holds(s: Rg, fc: u8, now: u32)
    requires
        held_is_click_or_none(s.hold_button),
    ensures
        hold_step_ok(s, rg_release_pending_holds(s, fc, now).0, rg_release_pending_holds(s, fc, now).1),
{
    reveal(rg_release_pending_holds);
    lemma_hold_release_deferred(s, TrackpadButton::LeftClick);
    let (s1, e1) = if s.one_finger_click_pending && hold_expired_spec(fc, 1, arith::elapsed_spec(now, s.one_finger_click_pending_ms), 160) {
        rg_release_deferred_hold(s, TrackpadButton::LeftClick)
    } else {
        (s, None)
    };
    if e1 is None {
        lemma_hold_release_deferred(s1, TrackpadButton::RightClick);
        let (s2, e2) = if s1.two_finger_click_pending && hold_expired_spec(fc, 2, arith::elapsed_spec(now, s1.two_finger_click_pending_ms), 200) {
            rg_release_deferred_hold(s1, TrackpadButton::RightClick)
        } else {
            (s1, None)
        };
        if e2 is None {
            lemma_hold_release_deferred(s2, TrackpadButton::MiddleClick);
        }
    }
}

proof fn lemma_hold_update_one(s: Rg, frame: CoordinateFrame, prev: CoordinateFrame, now: u32)
    requires
        held_is_click_or_none(s.hold_button),
    ensures
        hold_step_ok(s, rg_update_one(s, frame, prev, now).0, rg_update_one(s, frame, prev, now).1),
{
    reveal(rg_update_one);
    let s1 = Rg { one_finger: of_new(), suppress_cursor_tail: true, ..s };
    lemma_hold_release_and_click(s1, TrackpadButton::LeftClick);
    lemma_hold_release(s1, TrackpadButton::LeftClick);
    lemma_hold_emit(Rg { one_finger: of_new(), ..s }, TrackpadButton::LeftClick, now);
}

proof fn lemma_hold_two_begin(s: Rg, frame: CoordinateFrame, prev: CoordinateFrame, now: u32)
    requires
        held_is_click_or_none(s.hold_button),
    ensures
        hold_step_ok(s, rg_two_begin(s, frame, prev, now).0, rg_two_begin(s, frame, prev, now).1),
{
    reveal(rg_two_begin);
}

proof fn lemma_hold_two_continue(s: Rg, frame: CoordinateFrame, prev: CoordinateFrame, now: u32)
    requires
        held_is_click_or_none(s.hold_button),
    ensures
        hold_step_ok(s, rg_two_continue(s, frame, prev, now).0, rg_two_continue(s, frame, prev, now).1),
{
    reveal(rg_two_continue);
    reveal(rg_two_continue_tail);
}

proof fn lemma_hold_two_end(s: Rg, fc: u8, now: u32)
    requires
        held_is_click_or_none(s.hold_button),
    ensures
        hold_step_ok(s, rg_two_end(s, fc, now).0, rg_two_end(s, fc, now).1),
{
    reveal(rg_two_end);
    reveal(rg_two_end_pending);
    reveal(rg_two_end_tapdrag);
    reveal(rg_two_end_tap);
    lemma_hold_emit(Rg { two_finger: tf_new(), ..s }, TrackpadButton::RightClick, now);
    let s1 = Rg { two_finger: tf_new(), suppress_cursor_tail: true, ..s };
    lemma_hold_release_and_click(s1, TrackpadButton::RightClick);
    lemma_hold_release(s1, TrackpadButton::RightClick);
}

proof fn lemma_hold_update_two(s: Rg, frame: CoordinateFrame, prev: CoordinateFrame, now: u32)
    requires
        held_is_click_or_none(s.hold_button),
    ensures
        hold_step_ok(s, rg_update_two(s, frame, prev, now).0, rg_update_two(s, frame, prev, now).1),
{
    reveal(rg_update_two);
    lemma_hold_two_begin(s, frame, prev, now);
    let s0 = Rg { two_finger_one_lead_valid: false, ..s };
    lemma_hold_two_continue(s0, frame, prev, now);
    lemma_hold_two_end(s0, frame::finger_count_spec(frame), now);
}

proof fn lemma_hold_three_end(s: Rg, fc: u8, now: u32)
    requires
        held_is_click_or_none(s.hold_button),
    ensures
        hold_step_ok(s, rg_three_end(s, fc, now).0, rg_three_end(s, fc, now).1),
{
    reveal(rg_three_end);
    let s1 = Rg { three_finger: hf_new(), suppress_cursor_tail: true, ..s };
    lemma_hold_release_and_click(s1, TrackpadButton::MiddleClick);
    lemma_hold_release(s1, TrackpadButton::MiddleClick);
    lemma_hold_emit(Rg { three_finger: hf_new(), ..s }, TrackpadButton::MiddleClick, now);
}

proof fn lemma_hold_update_three(s: Rg, frame: CoordinateFrame, prev: CoordinateFrame, now: u32)
    requires
        held_is_click_or_none(s.hold_button),
    ensures
        hold_step_ok(s, rg_update_three(s, frame, prev, now).0, rg_update_three(s, frame, prev, now).1),
{
    reveal(rg_update_three);
    reveal(rg_three_begin);
    reveal(rg_three_continue);
    let s0 = Rg { three_finger_one_lead_valid: false, three_finger_two_lead_valid: false, ..s };
    lemma_hold_three_end(s0, frame::finger_count_spec(frame), now);
}

proof fn lemma_hold_stage_three_one(s: Rg, fc: u8, now: u32)
    requires
        held_is_click_or_none(s.hold_button),
    ensures
        match rg_stage_three_one(s, fc, now).1 {
            Some(e) => hold_step_ok(s, rg_stage_three_one(s, fc, now).0, e),
            None => rg_stage_three_one(s, fc, now).0.hold_button == s.hold_button,
        },
{
    reveal(rg_stage_three_one);
    let s1 = Rg { three_finger_one_lead_valid: of_tap_valid(s.one_finger, now, 120, s.config.one_finger_tap_move), ..s };
    lemma_hold_release(Rg { one_finger: of_new(), suppress_cursor_tail: true, ..s1 }, TrackpadButton::LeftClick);
}

proof fn lemma_hold_stage_three_two(s: Rg, fc: u8, now: u32)
    requires
        held_is_click_or_none(s.hold_button),
    ensures
        match rg_stage_three_two(s, fc, now).1 {
            Some(e) => hold_step_ok(s, rg_stage_three_two(s, fc, now).0, e),
            None => rg_stage_three_two(s, fc, now).0.hold_button == s.hold_button,
        },
{
    reveal(rg_stage_three_two);
    let s1 = Rg { three_finger_two_lead_valid: tf_tap_valid(s.two_finger, now, 120, s.config.two_finger_tap_move), ..s };
    lemma_hold_release(Rg { two_finger: tf_new(), two_finger_one_lead_valid: false, suppress_cursor_tail: true, ..s1 }, TrackpadButton::RightClick);
}

proof fn lemma_hold_stage_two_one(s: Rg, fc: u8, now: u32)
    requires
        held_is_click_or_none(s.hold_button),
    ensures
        match rg_stage_two_one(s, fc, now).1 {
            Some(e) => hold_step_ok(s, rg_stage_two_one(s, fc, now).0, e),
            None => rg_stage_two_one(s, fc, now).0.hold_button == s.hold_button,
        },
{
    reveal(rg_stage_two_one);
    let s1 = Rg { two_finger_one_lead_valid: of_tap_valid(s.one_finger, now, 120, s.config.one_finger_tap_move), ..s };
    lemma_hold_release(Rg { one_finger: of_new(), suppress_cursor_tail: true, ..s1 }, TrackpadButton::LeftClick);
}

proof fn lemma_hold_dispatch(s: Rg, frame: CoordinateFrame, prev: CoordinateFrame, now: u32)
    requires
        held_is_click_or_none(s.hold_button),
    ensures
        hold_step_ok(s, rg_stage_dispatch(s, frame, prev, now).0, rg_stage_dispatch(s, frame, prev, now).1),
{
    reveal(rg_stage_dispatch);
    let fc = frame::finger_count_spec(frame);
    lemma_hold_update_one(s, frame, prev, now);
    let (s1, e1) = if fc != 1 && s.one_finger.active {
        rg_update_one(s, frame, prev, now)
    } else {
        (s, None)
    };
    lemma_hold_update_two(s1, frame, prev, now);
    let (s2, e2) = if fc != 2 && s1.two_finger.active && e1 is None {
        rg_update_two(s1, frame, prev, now)
    } else {
        (s1, e1)
    };
    lemma_hold_update_three(s2, frame, prev, now);
    let (s3, e3) = if fc != 3 && s2.three_finger.active && e2 is None {
        rg_update_three(s2, frame, prev, now)
    } else {
        (s2, e2)
    };
    lemma_hold_update_one(s3, frame, prev, now);
    lemma_hold_update_two(s3, frame, prev, now);
    lemma_hold_update_three(s3, frame, prev, now);
}

proof fn lemma_hold_suppress(s: Rg, fc: u8, pfc: u8)
    ensures
        rg_stage_suppress(s, fc, pfc).hold_button == s.hold_button,
{
    reveal(rg_stage_suppress);
}

proof fn lemma_hold_process(s: Rg, frame: CoordinateFrame, prev: CoordinateFrame, now: u32)
    requires
        held_is_click_or_none(s.hold_button),
    ensures
        hold_step_ok(s, rg_process(s, frame, prev, now).0, rg_process(s, frame, prev, now).1),
{
    reveal(rg_process);
    let fc = frame::finger_count_spec(frame);
    let s1 = rg_stage_suppress(s, fc, frame::finger_count_spec(prev));
    lemma_hold_suppress(s, fc, frame::finger_count_spec(prev));
    lemma_hold_pending_holds(s1, fc, now);
    let s2 = rg_release_pending_holds(s1, fc, now).0;
    lemma_hold_stage_three_one(s2, fc, now);
    let s3 = rg_stage_three_one(s2, fc, now).0;
    lemma_hold_stage_three_two(s3, fc, now);
    let s4 = rg_stage_three_two(s3, fc, now).0;
    lemma_hold_stage_two_one(s4, fc, now);
    let s5 = rg_stage_two_one(s4, fc, now).0;
    lemma_hold_dispatch(s5, frame, prev, now);
}

/// Button hold balance: in every recognizer step, a press event takes hold of
/// its button only when nothing was held, a click-button release or a
/// release-and-click gives up exactly the button that was held, and a step
/// with any other outcome leaves the held button unchanged; so the host never
/// sees a second press without a release, nor a release of a button that was
/// not pressed. Only the left, right and middle click buttons are ever
/// pressed and held (never the pinch key nor a swipe button): no step makes
/// another button the held one, and a fresh recognizer holds nothing.
pub proof fn lemma_update_hold_balance(s: TrackpadGestureRecognizer, frame: CoordinateFrame, now_ms: u32)
    requires
        held_is_click_or_none(s.hold_button),
    ensures
        hold_step_ok(s, rg_update(s, frame, now_ms).0, rg_update(s, frame, now_ms).1),
{
    reveal(rg_update);
    lemma_hold_process(s, frame, s.prev_frame, now_ms);
}

/// Resetting forgets every held button.
pub proof fn lemma_reset_releases_hold(config: TrackpadGestureConfig)
    ensures
        rg_new(config).hold_button is None,
{
}

proof fn lemma_config_small()
    ensures
        forall|x: Rg, b: TrackpadButton, now: u32| #[trigger] rg_emit_hold_press(x, b, now).0.config == x.config,
        forall|x: Rg, b: TrackpadButton| #[trigger] rg_release_hold(x, b).0.config == x.config,
        forall|x: Rg, b: TrackpadButton| #[trigger] rg_release_deferred_hold(x, b).0.config == x.config,
        forall|x: Rg, b: TrackpadButton| #[trigger] rg_release_hold_and_click(x, b).0.config == x.config,
{
    reveal(rg_arm);
    reveal(rg_emit_hold_press);
    reveal(rg_release_hold);
    reveal(rg_clear_pending);
    reveal(rg_release_deferred_hold);
    reveal(rg_release_hold_and_click);
}

proof fn lemma_config_two()
    ensures
        forall|x: Rg, f: CoordinateFrame, p: CoordinateFrame, now: u32| #[trigger] rg_update_two(x, f, p, now).0.config == x.config,
{
    lemma_config_small();
    reveal(rg_update_two);
    reveal(rg_two_begin);
    reveal(rg_two_continue);
    reveal(rg_two_continue_tail);
    reveal(rg_two_end);
    reveal(rg_two_end_pending);
    reveal(rg_two_end_tapdrag);
    reveal(rg_two_end_tap);
}

proof fn lemma_config_one_three()
    ensures
        forall|x: Rg, f: CoordinateFrame, p: CoordinateFrame, now: u32| #[trigger] rg_update_one(x, f, p, now).0.config == x.config,
        forall|x: Rg, f: CoordinateFrame, p: CoordinateFrame, now: u32| #[trigger] rg_update_three(x, f, p, now).0.config == x.config,
{
    lemma_config_small();
    reveal(rg_update_one);
    reveal(rg_update_three);
    reveal(rg_three_begin);
    reveal(rg_three_continue);
    reveal(rg_three_end);
}

proof fn lemma_config_stages()
    ensures
        forall|x: Rg, fc: u8, pfc: u8| #[trigger] rg_stage_suppress(x, fc, pfc).config == x.config,
        forall|x: Rg, fc: u8, now: u32| #[trigger] rg_release_pending_holds(x, fc, now).0.config == x.config,
        forall|x: Rg, fc: u8, now: u32| #[trigger] rg_stage_three_one(x, fc, now).0.config == x.config,
        forall|x: Rg, fc: u8, now: u32| #[trigger] rg_stage_three_two(x, fc, now).0.config == x.config,
        forall|x: Rg, fc: u8, now: u32| #[trigger] rg_stage_two_one(x, fc, now).0.config == x.config,
        forall|x: Rg, f: CoordinateFrame, p: CoordinateFrame, now: u32| #[trigger] rg_stage_dispatch(x, f, p, now).0.config == x.config,
{
    lemma_config_small();
    lemma_config_two();
    lemma_config_one_three();
    reveal(rg_stage_suppress);
    reveal(rg_release_pending_holds);
    reveal(rg_stage_three_one);
    reveal(rg_stage_three_two);
    reveal(rg_stage_two_one);
    reveal(rg_stage_dispatch);
}

/// The thresholds are fixed: no recognizer step changes the configuration the
/// recognizer was made with (and `reset` keeps it too).
pub proof fn lemma_update_keeps_config(s: TrackpadGestureRecognizer, frame: CoordinateFrame, now_ms: u32)
    ensures
        rg_update(s, frame, now_ms).0.config == s.config,
{
    lemma_config_stages();
    reveal(rg_update);
    reveal(rg_process);
}

/// A frame with the sensor's built-in gesture bits and info flags cleared.
pub open spec fn frame_without_gesture_bits(f: CoordinateFrame) -> CoordinateFrame {
    CoordinateFrame { single_gestures: 0, two_finger_gestures: 0, info_flags: 0, ..f }
}

/// Two frames that differ at most in the sensor's gesture bits and info flags.
pub open spec fn frames_agree_but_gesture_bits(a: CoordinateFrame, b: CoordinateFrame) -> bool {
    frame_without_gesture_bits(a) == frame_without_gesture_bits(b)
}

/// Two recognizer states that differ at most in the gesture bits and info
/// flags of the frame they remember.
pub open spec fn states_agree_but_gesture_bits(a: Rg, b: Rg) -> bool {
    Rg { prev_frame: frame_without_gesture_bits(a.prev_frame), ..a } == Rg {
        prev_frame: frame_without_gesture_bits(b.prev_frame),
        ..b
    }
}

proof fn lemma_agree_small()
    ensures
        forall|x: Rg, y: Rg, b: TrackpadButton, now: u32|
            #![trigger rg_emit_hold_press(x, b, now), rg_emit_hold_press(y, b, now)]
            states_agree_but_gesture_bits(x, y) ==> states_agree_but_gesture_bits(rg_emit_hold_press(x, b, now).0, rg_emit_hold_press(y, b, now).0)
                && rg_emit_hold_press(x, b, now).1 == rg_emit_hold_press(y, b, now).1,
        forall|x: Rg, y: Rg, b: TrackpadButton|
            #![trigger rg_release_hold(x, b), rg_release_hold(y, b)]
            states_agree_but_gesture_bits(x, y) ==> states_agree_but_gesture_bits(rg_release_hold(x, b).0, rg_release_hold(y, b).0)
                && rg_release_hold(x, b).1 == rg_release_hold(y, b).1,
        forall|x: Rg, y: Rg, b: TrackpadButton|
            #![trigger rg_release_deferred_hold(x, b), rg_release_deferred_hold(y, b)]
            states_agree_but_gesture_bits(x, y) ==> states_agree_but_gesture_bits(rg_release_deferred_hold(x, b).0, rg_release_deferred_hold(y, b).0)
                && rg_release_deferred_hold(x, b).1 == rg_release_deferred_hold(y, b).1,
        forall|x: Rg, y: Rg, b: TrackpadButton|
            #![trigger rg_release_hold_and_click(x, b), rg_release_hold_and_click(y, b)]
            states_agree_but_gesture_bits(x, y) ==> states_agree_but_gesture_bits(rg_release_hold_and_click(x, b).0, rg_release_hold_and_click(y, b).0)
                && rg_release_hold_and_click(x, b).1 == rg_release_hold_and_click(y, b).1,
        forall|x: Rg, y: Rg, p: CoordinateFrame, q: CoordinateFrame, now: u32|
            #![trigger rg_tap_start_allowed(x, p, now), rg_tap_start_allowed(y, q, now)]
            states_agree_but_gesture_bits(x, y) && frames_agree_but_gesture_bits(p, q) ==> rg_tap_start_allowed(x, p, now) == rg_tap_start_allowed(y, q, now),
{
    reveal(rg_arm);
    reveal(rg_emit_hold_press);
    reveal(rg_release_hold);
    reveal(rg_clear_pending);
    reveal(rg_release_deferred_hold);
    reveal(rg_release_hold_and_click);
    reveal(rg_tap_start_allowed);
}

proof fn lemma_agree_pending_holds()
    ensures
        forall|x: Rg, y: Rg, fc: u8, now: u32|
            #![trigger rg_release_pending_holds(x, fc, now), rg_release_pending_holds(y, fc, now)]
            states_agree_but_gesture_bits(x, y) ==> states_agree_but_gesture_bits(rg_release_pending_holds(x, fc, now).0, rg_release_pending_holds(y, fc, now).0)
                && rg_release_pending_holds(x, fc, now).1 == rg_release_pending_holds(y, fc, now).1,
{
    lemma_agree_small();
    reveal(rg_release_pending_holds);
}

proof fn lemma_agree_two_end_pending()
    ensures
        forall|x: Rg, y: Rg, fc: u8, now: u32|
            #![trigger rg_two_end_pending(x, fc, now), rg_two_end_pending(y, fc, now)]
            states_agree_but_gesture_bits(x, y) ==> states_agree_but_gesture_bits(rg_two_end_pending(x, fc, now).0, rg_two_end_pending(y, fc, now).0)
                && rg_two_end_pending(x, fc, now).1 == rg_two_end_pending(y, fc, now).1,
{
    lemma_agree_small();
    reveal(rg_two_end_pending);
}

proof fn lemma_agree_two_end_tapdrag()
    ensures
        forall|x: Rg, y: Rg, fc: u8, now: u32|
            #![trigger rg_two_end_tapdrag(x, fc, now), rg_two_end_tapdrag(y, fc, now)]
            states_agree_but_gesture_bits(x, y) ==> states_agree_but_gesture_bits(rg_two_end_tapdrag(x, fc, now).0, rg_two_end_tapdrag(y, fc, now).0)
                && rg_two_end_tapdrag(x, fc, now).1 == rg_two_end_tapdrag(y, fc, now).1,
{
    lemma_agree_small();
    reveal(rg_two_end_tapdrag);
}

proof fn lemma_agree_two_end_tap()
    ensures
        forall|x: Rg, y: Rg, fc: u8, now: u32|
            #![trigger rg_two_end_tap(x, fc, now), rg_two_end_tap(y, fc, now)]
            states_agree_but_gesture_bits(x, y) ==> states_agree_but_gesture_bits(rg_two_end_tap(x, fc, now).0, rg_two_end_tap(y, fc, now).0)
                && rg_two_end_tap(x, fc, now).1 == rg_two_end_tap(y, fc, now).1,
{
    lemma_agree_small();
    reveal(rg_two_end_tap);
}

proof fn lemma_agree_two_end()
    ensures
        forall|x: Rg, y: Rg, fc: u8, now: u32|
            #![trigger rg_two_end(x, fc, now), rg_two_end(y, fc, now)]
            states_agree_but_gesture_bits(x, y) ==> states_agree_but_gesture_bits(rg_two_end(x, fc, now).0, rg_two_end(y, fc, now).0)
                && rg_two_end(x, fc, now).1 == rg_two_end(y, fc, now).1,
{
    lemma_agree_two_end_pending();
    lemma_agree_two_end_tapdrag();
    lemma_agree_two_end_tap();
    reveal(rg_two_end);
}

proof fn lemma_agree_three_end()
    ensures
        forall|x: Rg, y: Rg, fc: u8, now: u32|
            #![trigger rg_three_end(x, fc, now), rg_three_end(y, fc, now)]
            states_agree_but_gesture_bits(x, y) ==> states_agree_but_gesture_bits(rg_three_end(x, fc, now).0, rg_three_end(y, fc, now).0)
                && rg_three_end(x, fc, now).1 == rg_three_end(y, fc, now).1,
{
    lemma_agree_small();
    reveal(rg_three_end);
}

proof fn lemma_agree_hand_overs()
    ensures
        forall|x: Rg, y: Rg, fc: u8, now: u32|
            #![trigger rg_stage_three_one(x, fc, now), rg_stage_three_one(y, fc, now)]
            states_agree_but_gesture_bits(x, y) ==> states_agree_but_gesture_bits(rg_stage_three_one(x, fc, now).0, rg_stage_three_one(y, fc, now).0)
                && rg_stage_three_one(x, fc, now).1 == rg_stage_three_one(y, fc, now).1,
        forall|x: Rg, y: Rg, fc: u8, now: u32|
            #![trigger rg_stage_three_two(x, fc, now), rg_stage_three_two(y, fc, now)]
            states_agree_but_gesture_bits(x, y) ==> states_agree_but_gesture_bits(rg_stage_three_two(x, fc, now).0, rg_stage_three_two(y, fc, now).0)
                && rg_stage_three_two(x, fc, now).1 == rg_stage_three_two(y, fc, now).1,
        forall|x: Rg, y: Rg, fc: u8, now: u32|
            #![trigger rg_stage_two_one(x, fc, now), rg_stage_two_one(y, fc, now)]
            states_agree_but_gesture_bits(x, y) ==> states_agree_but_gesture_bits(rg_stage_two_one(x, fc, now).0, rg_stage_two_one(y, fc, now).0)
                && rg_stage_two_one(x, fc, now).1 == rg_stage_two_one(y, fc, now).1,
        forall|x: Rg, y: Rg, fc: u8, pfc: u8|
            #![trigger rg_stage_suppress(x, fc, pfc), rg_stage_suppress(y, fc, pfc)]
            states_agree_but_gesture_bits(x, y) ==> states_agree_but_gesture_bits(rg_stage_suppress(x, fc, pfc), rg_stage_suppress(y, fc, pfc)),
{
    lemma_agree_small();
    reveal(rg_stage_three_one);
    reveal(rg_stage_three_two);
    reveal(rg_stage_two_one);
    reveal(rg_stage_suppress);
}

proof fn lemma_agree_update_one()
    ensures
        forall|x: Rg, y: Rg, f: CoordinateFrame, g: CoordinateFrame, p: CoordinateFrame, q: CoordinateFrame, now: u32|
            #![trigger rg_update_one(x, f, p, now), rg_update_one(y, g, q, now)]
            states_agree_but_gesture_bits(x, y) && frames_agree_but_gesture_bits(f, g) && frames_agree_but_gesture_bits(p, q) ==> states_agree_but_gesture_bits(rg_update_one(x, f, p, now).0, rg_update_one(y, g, q, now).0)
                && rg_update_one(x, f, p, now).1 == rg_update_one(y, g, q, now).1,
{
    lemma_agree_small();
    reveal(rg_update_one);
}

proof fn lemma_agree_two_continue_tail()
    ensures
        forall|x: Rg, y: Rg, t: TwoFingerState, f: CoordinateFrame, g: CoordinateFrame, st: TwoFingerStep|
            #![trigger rg_two_continue_tail(x, t, f, st), rg_two_continue_tail(y, t, g, st)]
            states_agree_but_gesture_bits(x, y) && frames_agree_but_gesture_bits(f, g) ==> states_agree_but_gesture_bits(rg_two_continue_tail(x, t, f, st).0, rg_two_continue_tail(y, t, g, st).0)
                && rg_two_continue_tail(x, t, f, st).1 == rg_two_continue_tail(y, t, g, st).1,
{
    reveal(rg_two_continue_tail);
}

proof fn lemma_agree_two_begin()
    ensures
        forall|x: Rg, y: Rg, f: CoordinateFrame, g: CoordinateFrame, p: CoordinateFrame, q: CoordinateFrame, now: u32|
            #![trigger rg_two_begin(x, f, p, now), rg_two_begin(y, g, q, now)]
            states_agree_but_gesture_bits(x, y) && frames_agree_but_gesture_bits(f, g) && frames_agree_but_gesture_bits(p, q) ==> states_agree_but_gesture_bits(rg_two_begin(x, f, p, now).0, rg_two_begin(y, g, q, now).0)
                && rg_two_begin(x, f, p, now).1 == rg_two_begin(y, g, q, now).1,
{
    lemma_agree_small();
    reveal(rg_two_begin);
}

proof fn lemma_agree_two_continue()
    ensures
        forall|x: Rg, y: Rg, f: CoordinateFrame, g: CoordinateFrame, p: CoordinateFrame, q: CoordinateFrame, now: u32|
            #![trigger rg_two_continue(x, f, p, now), rg_two_continue(y, g, q, now)]
            states_agree_but_gesture_bits(x, y) && frames_agree_but_gesture_bits(f, g) && frames_agree_but_gesture_bits(p, q) ==> states_agree_but_gesture_bits(rg_two_continue(x, f, p, now).0, rg_two_continue(y, g, q, now).0)
                && rg_two_continue(x, f, p, now).1 == rg_two_continue(y, g, q, now).1,
{
    lemma_agree_two_continue_tail();
    reveal(rg_two_continue);
}

proof fn lemma_agree_update_two()
    ensures
        forall|x: Rg, y: Rg, f: CoordinateFrame, g: CoordinateFrame, p: CoordinateFrame, q: CoordinateFrame, now: u32|
            #![trigger rg_update_two(x, f, p, now), rg_update_two(y, g, q, now)]
            states_agree_but_gesture_bits(x, y) && frames_agree_but_gesture_bits(f, g) && frames_agree_but_gesture_bits(p, q) ==> states_agree_but_gesture_bits(rg_update_two(x, f, p, now).0, rg_update_two(y, g, q, now).0)
                && rg_update_two(x, f, p, now).1 == rg_update_two(y, g, q, now).1,
{
    lemma_agree_two_begin();
    lemma_agree_two_continue();
    lemma_agree_two_end();
    reveal(rg_update_two);
}

proof fn lemma_agree_three_begin_continue()
    ensures
        forall|x: Rg, y: Rg, f: CoordinateFrame, g: CoordinateFrame, p: CoordinateFrame, q: CoordinateFrame, now: u32|
            #![trigger rg_three_begin(x, f, p, now), rg_three_begin(y, g, q, now)]
            states_agree_but_gesture_bits(x, y) && frames_agree_but_gesture_bits(f, g) && frames_agree_but_gesture_bits(p, q) ==> states_agree_but_gesture_bits(rg_three_begin(x, f, p, now).0, rg_three_begin(y, g, q, now).0)
                && rg_three_begin(x, f, p, now).1 == rg_three_begin(y, g, q, now).1,
        forall|x: Rg, y: Rg, f: CoordinateFrame, g: CoordinateFrame, p: CoordinateFrame, q: CoordinateFrame, now: u32|
            #![trigger rg_three_continue(x, f, p, now), rg_three_continue(y, g, q, now)]
            states_agree_but_gesture_bits(x, y) && frames_agree_but_gesture_bits(f, g) && frames_agree_but_gesture_bits(p, q) ==> states_agree_but_gesture_bits(rg_three_continue(x, f, p, now).0, rg_three_continue(y, g, q, now).0)
                && rg_three_continue(x, f, p, now).1 == rg_three_continue(y, g, q, now).1,
{
    lemma_agree_small();
    reveal(rg_three_begin);
    reveal(rg_three_continue);
}

proof fn lemma_agree_update_three()
    ensures
        forall|x: Rg, y: Rg, f: CoordinateFrame, g: CoordinateFrame, p: CoordinateFrame, q: CoordinateFrame, now: u32|
            #![trigger rg_update_three(x, f, p, now), rg_update_three(y, g, q, now)]
            states_agree_but_gesture_bits(x, y) && frames_agree_but_gesture_bits(f, g) && frames_agree_but_gesture_bits(p, q) ==> states_agree_but_gesture_bits(rg_update_three(x, f, p, now).0, rg_update_three(y, g, q, now).0)
                && rg_update_three(x, f, p, now).1 == rg_update_three(y, g, q, now).1,
{
    lemma_agree_three_begin_continue();
    lemma_agree_three_end();
    reveal(rg_update_three);
}

proof fn lemma_agree_dispatch()
    ensures
        forall|x: Rg, y: Rg, f: CoordinateFrame, g: CoordinateFrame, p: CoordinateFrame, q: CoordinateFrame, now: u32|
            #![trigger rg_stage_dispatch(x, f, p, now), rg_stage_dispatch(y, g, q, now)]
            states_agree_but_gesture_bits(x, y) && frames_agree_but_gesture_bits(f, g) && frames_agree_but_gesture_bits(p, q) ==> states_agree_but_gesture_bits(rg_stage_dispatch(x, f, p, now).0, rg_stage_dispatch(y, g, q, now).0)
                && rg_stage_dispatch(x, f, p, now).1 == rg_stage_dispatch(y, g, q, now).1,
{
    lemma_agree_update_one();
    lemma_agree_update_two();
    lemma_agree_update_three();
    reveal(rg_stage_dispatch);
}

proof fn lemma_agree_process()
    ensures
        forall|x: Rg, y: Rg, f: CoordinateFrame, g: CoordinateFrame, p: CoordinateFrame, q: CoordinateFrame, now: u32|
            #![trigger rg_process(x, f, p, now), rg_process(y, g, q, now)]
            states_agree_but_gesture_bits(x, y) && frames_agree_but_gesture_bits(f, g) && frames_agree_but_gesture_bits(p, q) ==> states_agree_but_gesture_bits(rg_process(x, f, p, now).0, rg_process(y, g, q, now).0)
                && rg_process(x, f, p, now).1 == rg_process(y, g, q, now).1,
{
    lemma_agree_pending_holds();
    lemma_agree_hand_overs();
    lemma_agree_dispatch();
    reveal(rg_process);
}

/// The sensor's built-in gesture bits and info flags never reach the events:
/// a recognizer step on two frames that differ only in those bits, from two
/// states that differ only in the bits of the frame they remember, reports the
/// same event and again leaves states that differ only there. Taps and clicks
/// come from finger counts, positions and movement alone, so by induction any
/// two sequences of such frames give the same events.
pub proof fn lemma_update_ignores_gesture_bits(
    a: TrackpadGestureRecognizer,
    b: TrackpadGestureRecognizer,
    fa: CoordinateFrame,
    fb: CoordinateFrame,
    now_ms: u32,
)
    requires
        states_agree_but_gesture_bits(a, b),
        frames_agree_but_gesture_bits(fa, fb),
    ensures
        rg_update(a, fa, now_ms).1 == rg_update(b, fb, now_ms).1,
        states_agree_but_gesture_bits(rg_update(a, fa, now_ms).0, rg_update(b, fb, now_ms).0),
{
    lemma_agree_process();
    reveal(rg_update);
    reveal(rg_prev_frame);
    assert(frames_agree_but_gesture_bits(a.prev_frame, b.prev_frame));
    assert(frames_agree_but_gesture_bits(rg_prev_frame(fa, a.prev_frame), rg_prev_frame(fb, b.prev_frame)));
}

/// Three-finger swipe direction. Under the threshold on both axes there is
/// no swipe. Otherwise the swipe runs along the axis of the larger
/// excursion (horizontal on a tie): up when the fingers now stand above
/// where they started (smaller y), down when level with or below it; left
/// when they stand left of the start (smaller x), right when level with or
/// right of it.
pub proof fn lemma_swipe_direction(h: ThreeFingerState, threshold: u16)
    ensures
        h.max_abs_dx < threshold && h.max_abs_dy < threshold ==> hf_swipe_button(h, threshold) is None,
        h.max_abs_dy >= threshold && h.max_abs_dy > h.max_abs_dx && h.current_y < h.start_y
            ==> hf_swipe_button(h, threshold) == Some(TrackpadButton::GestureUp),
        h.max_abs_dy >= threshold && h.max_abs_dy > h.max_abs_dx && h.current_y >= h.start_y
            ==> hf_swipe_button(h, threshold) == Some(TrackpadButton::GestureDown),
        h.max_abs_dx >= threshold && h.max_abs_dx >= h.max_abs_dy && h.current_x < h.start_x
            ==> hf_swipe_button(h, threshold) == Some(TrackpadButton::GestureLeft),
        h.max_abs_dx >= threshold && h.max_abs_dx >= h.max_abs_dy && h.current_x >= h.start_x
            ==> hf_swipe_button(h, threshold) == Some(TrackpadButton::GestureRight),
{
    reveal(hf_swipe_button);
}

/// A three-finger touch tracks its excursion: after a move to `(x, y)` the
/// current point is `(x, y)`, the start point is kept, and the largest
/// excursion on each axis is the larger of the old one and the distance of
/// the new point from the start.
pub proof fn lemma_swipe_tracks_excursion(h: ThreeFingerState, x: i32, y: i32)
    requires
        -65535 <= x <= 65535,
        -65535 <= y <= 65535,
        -65535 <= h.start_x <= 65535,
        -65535 <= h.start_y <= 65535,
    ensures
        hf_update_position(h, x, y).current_x == x,
        hf_update_position(h, x, y).current_y == y,
        hf_update_position(h, x, y).start_x == h.start_x,
        hf_update_position(h, x, y).start_y == h.start_y,
        hf_update_position(h, x, y).max_abs_dx == if h.max_abs_dx >= arith::abs_int(x - h.start_x) {
            h.max_abs_dx as int
        } else {
            arith::abs_int(x - h.start_x)
        },
        hf_update_position(h, x, y).max_abs_dy == if h.max_abs_dy >= arith::abs_int(y - h.start_y) {
            h.max_abs_dy as int
        } else {
            arith::abs_int(y - h.start_y)
        },
{
    reveal(hf_update_position);
}

} // verus!
