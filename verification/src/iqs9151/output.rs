//! Where trackpad motion goes once it leaves a trackpad: the user-adjustable
//! dynamic scale, the mouse report it becomes on the central, the custom
//! events forwarded across the split link, and how a controller dispatches an
//! incoming custom event.
use vstd::prelude::*;
use crate::iqs9151::arith::{self, clamp_i16_to_i8, clamp_i32_to_i16, sat_add_i32, sat_mul_i32, sat_sub_i32};
use crate::iqs9151::buttons::{self, trackpad_button_position, TrackpadButton, TrackpadSide};
use crate::iqs9151::motion::{
    self,
    TrackpadDynamicScaleAction,
    TrackpadDynamicScaleEvent,
    TrackpadDynamicScaleGroup,
    TrackpadMotionEvent,
    TrackpadPinchReport,
};
use crate::rmk::KeyboardEvent;

verus! {

/// The neutral dynamic scale, in tenths (1.0x).
pub const DEFAULT_DYNAMIC_SCALE_X10: u16 = 10;

/// The smallest dynamic scale, in tenths.
pub const MIN_DYNAMIC_SCALE_X10: u16 = 2;

/// The largest dynamic scale, in tenths.
pub const MAX_DYNAMIC_SCALE_X10: u16 = 50;

/// The dynamic cursor and scroll scales and the fractional remainders each
/// side's axes carry between reports.
#[derive(Clone, Copy, Debug, PartialEq, Eq, Structural)]
pub struct DynamicScaleState {
    pub cursor_scale_x10: u16,
    pub scroll_scale_x10: u16,
    pub left_cursor_x: i32,
    pub left_cursor_y: i32,
    pub right_cursor_x: i32,
    pub right_cursor_y: i32,
    pub left_scroll_wheel: i32,
    pub left_scroll_pan: i32,
    pub right_scroll_wheel: i32,
    pub right_scroll_pan: i32,
}

/// Both scales lie in `[MIN_DYNAMIC_SCALE_X10, MAX_DYNAMIC_SCALE_X10]`.
pub open spec fn scale_state_wf(s: DynamicScaleState) -> bool {
    &&& MIN_DYNAMIC_SCALE_X10 <= s.cursor_scale_x10 <= MAX_DYNAMIC_SCALE_X10
    &&& MIN_DYNAMIC_SCALE_X10 <= s.scroll_scale_x10 <= MAX_DYNAMIC_SCALE_X10
}

/// The state with every remainder cleared.
pub open spec fn clear_remainders(s: DynamicScaleState) -> DynamicScaleState {
    DynamicScaleState {
        left_cursor_x: 0,
        left_cursor_y: 0,
        right_cursor_x: 0,
        right_cursor_y: 0,
        left_scroll_wheel: 0,
        left_scroll_pan: 0,
        right_scroll_wheel: 0,
        right_scroll_pan: 0,
        ..s
    }
}

/// The start-up state: both scales neutral, nothing carried.
pub open spec fn scale_state_initial() -> DynamicScaleState {
    clear_remainders(
        DynamicScaleState {
            cursor_scale_x10: DEFAULT_DYNAMIC_SCALE_X10,
            scroll_scale_x10: DEFAULT_DYNAMIC_SCALE_X10,
            left_cursor_x: 0,
            left_cursor_y: 0,
            right_cursor_x: 0,
            right_cursor_y: 0,
            left_scroll_wheel: 0,
            left_scroll_pan: 0,
            right_scroll_wheel: 0,
            right_scroll_pan: 0,
        },
    )
}

/// A scale moved by `delta` tenths and kept in its range.
pub open spec fn stepped_scale(scale: u16, delta: i16) -> u16 {
    arith::clamp_int(scale + delta, MIN_DYNAMIC_SCALE_X10 as int, MAX_DYNAMIC_SCALE_X10 as int) as u16
}

/// The scale a group reads as: `All` always reads as the neutral scale.
pub open spec fn scale_x10_spec(s: DynamicScaleState, group: TrackpadDynamicScaleGroup) -> u16 {
    match group {
        TrackpadDynamicScaleGroup::Cursor => s.cursor_scale_x10,
        TrackpadDynamicScaleGroup::Scroll => s.scroll_scale_x10,
        TrackpadDynamicScaleGroup::All => DEFAULT_DYNAMIC_SCALE_X10,
    }
}

/// Stepping a group's scale (both for `All`), which clears every remainder.
pub open spec fn scale_step_spec(s: DynamicScaleState, group: TrackpadDynamicScaleGroup, delta: i16) -> DynamicScaleState {
    let s1 = match group {
        TrackpadDynamicScaleGroup::Cursor => DynamicScaleState { cursor_scale_x10: stepped_scale(s.cursor_scale_x10, delta), ..s },
        TrackpadDynamicScaleGroup::Scroll => DynamicScaleState { scroll_scale_x10: stepped_scale(s.scroll_scale_x10, delta), ..s },
        TrackpadDynamicScaleGroup::All => DynamicScaleState {
            cursor_scale_x10: stepped_scale(s.cursor_scale_x10, delta),
            scroll_scale_x10: stepped_scale(s.scroll_scale_x10, delta),
            ..s
        },
    };
    clear_remainders(s1)
}

/// Resetting a group's scale (both for `All`) to neutral, which clears every
/// remainder.
pub open spec fn scale_reset_spec(s: DynamicScaleState, group: TrackpadDynamicScaleGroup) -> DynamicScaleState {
    let s1 = match group {
        TrackpadDynamicScaleGroup::Cursor => DynamicScaleState { cursor_scale_x10: DEFAULT_DYNAMIC_SCALE_X10, ..s },
        TrackpadDynamicScaleGroup::Scroll => DynamicScaleState { scroll_scale_x10: DEFAULT_DYNAMIC_SCALE_X10, ..s },
        TrackpadDynamicScaleGroup::All => DynamicScaleState {
            cursor_scale_x10: DEFAULT_DYNAMIC_SCALE_X10,
            scroll_scale_x10: DEFAULT_DYNAMIC_SCALE_X10,
            ..s
        },
    };
    clear_remainders(s1)
}

/// What a dynamic-scale command does to the state.
pub open spec fn scale_apply_spec(s: DynamicScaleState, e: TrackpadDynamicScaleEvent) -> DynamicScaleState {
    match e.action {
        TrackpadDynamicScaleAction::Increment => scale_step_spec(s, e.group, 1),
        TrackpadDynamicScaleAction::Decrement => scale_step_spec(s, e.group, -1i16),
        TrackpadDynamicScaleAction::Reset => scale_reset_spec(s, e.group),
    }
}

/// Scaling one axis value by `scale_x10` tenths with a carried remainder:
/// the result and the new remainder.
pub open spec fn scale_axis_spec(value: i16, scale_x10: u16, remainder: i32) -> (i16, i32) {
    let total = arith::sat_i32(value * scale_x10 + remainder) as int;
    let scaled = arith::trunc_div(total, 10);
    (arith::sat_i16(scaled), (total - scaled * 10) as i32)
}

/// Scale one axis by `scale_x10` tenths, carrying the remainder.
pub fn dynamic_scale_axis(value: i16, scale_x10: u16, remainder: &mut i32) -> (r: i16)
    ensures
        (r, *final(remainder)) == scale_axis_spec(value, scale_x10, *old(remainder)),
{
    assert(-0x8000_0000 < (value as int) * (scale_x10 as int) < 0x8000_0000) by (nonlinear_arith)
        requires
            -32768 <= value <= 32767,
            0 <= scale_x10 <= 65535,
    ;
    let value_mul = sat_add_i32(sat_mul_i32(value as i32, scale_x10 as i32), *remainder);
    proof {
        crate::iqs9151::motion::lemma_trunc_div(value_mul as int, 10);
    }
    let scaled = value_mul / 10;
    let tens = sat_mul_i32(scaled, 10);
    *remainder = sat_sub_i32(value_mul, tens);
    clamp_i32_to_i16(scaled)
}

/// A motion's cursor axes scaled by the cursor scale (when it moves the
/// cursor) and its scroll axes by the scroll scale (when it scrolls), each
/// with the remainders of its side.
pub open spec fn apply_scale_spec(s: DynamicScaleState, m: TrackpadMotionEvent) -> (DynamicScaleState, TrackpadMotionEvent) {
    let left = m.side == TrackpadSide::Left;
    let (s1, m1) = if m.x != 0 || m.y != 0 {
        let rx = if left {
            s.left_cursor_x
        } else {
            s.right_cursor_x
        };
        let ry = if left {
            s.left_cursor_y
        } else {
            s.right_cursor_y
        };
        let (x, rx2) = scale_axis_spec(m.x, s.cursor_scale_x10, rx);
        let (y, ry2) = scale_axis_spec(m.y, s.cursor_scale_x10, ry);
        (if left {
            DynamicScaleState { left_cursor_x: rx2, left_cursor_y: ry2, ..s }
        } else {
            DynamicScaleState { right_cursor_x: rx2, right_cursor_y: ry2, ..s }
        }, TrackpadMotionEvent { x, y, ..m })
    } else {
        (s, m)
    };
    if m1.wheel != 0 || m1.pan != 0 {
        let rw = if left {
            s1.left_scroll_wheel
        } else {
            s1.right_scroll_wheel
        };
        let rp = if left {
            s1.left_scroll_pan
        } else {
            s1.right_scroll_pan
        };
        let (w, rw2) = scale_axis_spec(m1.wheel, s1.scroll_scale_x10, rw);
        let (p, rp2) = scale_axis_spec(m1.pan, s1.scroll_scale_x10, rp);
        (if left {
            DynamicScaleState { left_scroll_wheel: rw2, left_scroll_pan: rp2, ..s1 }
        } else {
            DynamicScaleState { right_scroll_wheel: rw2, right_scroll_pan: rp2, ..s1 }
        }, TrackpadMotionEvent { wheel: w, pan: p, ..m1 })
    } else {
        (s1, m1)
    }
}

impl DynamicScaleState {
    /// Neutral scales and no remainders.
    pub fn new() -> (s: Self)
        ensures
            s == scale_state_initial(),
            scale_state_wf(s),
    {
        DynamicScaleState {
            cursor_scale_x10: DEFAULT_DYNAMIC_SCALE_X10,
            scroll_scale_x10: DEFAULT_DYNAMIC_SCALE_X10,
            left_cursor_x: 0,
            left_cursor_y: 0,
            right_cursor_x: 0,
            right_cursor_y: 0,
            left_scroll_wheel: 0,
            left_scroll_pan: 0,
            right_scroll_wheel: 0,
            right_scroll_pan: 0,
        }
    }

    fn reset_remainders(&mut self)
        ensures
            *final(self) == clear_remainders(*old(self)),
    {
        self.left_cursor_x = 0;
        self.left_cursor_y = 0;
        self.right_cursor_x = 0;
        self.right_cursor_y = 0;
        self.left_scroll_wheel = 0;
        self.left_scroll_pan = 0;
        self.right_scroll_wheel = 0;
        self.right_scroll_pan = 0;
    }
}

fn step_dynamic_scale(scale: u16, delta: i16) -> (r: u16)
    ensures
        r == stepped_scale(scale, delta),
{
    let current = scale as i32;
    let next = current + delta as i32;
    let next = if next < MIN_DYNAMIC_SCALE_X10 as i32 {
        MIN_DYNAMIC_SCALE_X10 as i32
    } else if next > MAX_DYNAMIC_SCALE_X10 as i32 {
        MAX_DYNAMIC_SCALE_X10 as i32
    } else {
        next
    };
    next as u16
}

/// The scale a group currently reads as, in tenths.
pub fn trackpad_dynamic_scale_x10(state: &DynamicScaleState, group: TrackpadDynamicScaleGroup) -> (r: u16)
    ensures
        r == scale_x10_spec(*state, group),
{
    match group {
        TrackpadDynamicScaleGroup::Cursor => state.cursor_scale_x10,
        TrackpadDynamicScaleGroup::Scroll => state.scroll_scale_x10,
        TrackpadDynamicScaleGroup::All => DEFAULT_DYNAMIC_SCALE_X10,
    }
}

/// Move a group's scale by `delta` tenths, within range, clearing remainders.
pub fn trackpad_dynamic_scale_step(state: &mut DynamicScaleState, group: TrackpadDynamicScaleGroup, delta: i16)
    ensures
        *final(state) == scale_step_spec(*old(state), group, delta),
{
    match group {
        TrackpadDynamicScaleGroup::Cursor => {
            state.cursor_scale_x10 = step_dynamic_scale(state.cursor_scale_x10, delta);
        },
        TrackpadDynamicScaleGroup::Scroll => {
            state.scroll_scale_x10 = step_dynamic_scale(state.scroll_scale_x10, delta);
        },
        TrackpadDynamicScaleGroup::All => {
            state.cursor_scale_x10 = step_dynamic_scale(state.cursor_scale_x10, delta);
            state.scroll_scale_x10 = step_dynamic_scale(state.scroll_scale_x10, delta);
        },
    }
    state.reset_remainders();
}

/// Put a group's scale back to neutral, clearing remainders.
pub fn trackpad_dynamic_scale_reset(state: &mut DynamicScaleState, group: TrackpadDynamicScaleGroup)
    ensures
        *final(state) == scale_reset_spec(*old(state), group),
{
    match group {
        TrackpadDynamicScaleGroup::Cursor => {
            state.cursor_scale_x10 = DEFAULT_DYNAMIC_SCALE_X10;
        },
        TrackpadDynamicScaleGroup::Scroll => {
            state.scroll_scale_x10 = DEFAULT_DYNAMIC_SCALE_X10;
        },
        TrackpadDynamicScaleGroup::All => {
            state.cursor_scale_x10 = DEFAULT_DYNAMIC_SCALE_X10;
            state.scroll_scale_x10 = DEFAULT_DYNAMIC_SCALE_X10;
        },
    }
    state.reset_remainders();
}

impl TrackpadDynamicScaleEvent {
    /// Carry out the command on the dynamic scale state.
    pub fn apply(self, state: &mut DynamicScaleState)
        ensures
            *final(state) == scale_apply_spec(*old(state), self),
    {
        match self.action {
            TrackpadDynamicScaleAction::Increment => {
                trackpad_dynamic_scale_step(state, self.group, 1);
            },
            TrackpadDynamicScaleAction::Decrement => {
                trackpad_dynamic_scale_step(state, self.group, -1);
            },
            TrackpadDynamicScaleAction::Reset => {
                trackpad_dynamic_scale_reset(state, self.group);
            },
        }
    }
}

/// Scale a motion's cursor and scroll axes by the dynamic scales.
pub fn apply_dynamic_motion_scale(state: &mut DynamicScaleState, motion: TrackpadMotionEvent) -> (r: TrackpadMotionEvent)
    ensures
        (*final(state), r) == apply_scale_spec(*old(state), motion),
{
    let mut motion = motion;
    let left = motion.side == TrackpadSide::Left;
    if motion.x != 0 || motion.y != 0 {
        let scale = state.cursor_scale_x10;
        if left {
            motion.x = dynamic_scale_axis(motion.x, scale, &mut state.left_cursor_x);
            motion.y = dynamic_scale_axis(motion.y, scale, &mut state.left_cursor_y);
        } else {
            motion.x = dynamic_scale_axis(motion.x, scale, &mut state.right_cursor_x);
            motion.y = dynamic_scale_axis(motion.y, scale, &mut state.right_cursor_y);
        }
    }
    if motion.wheel != 0 || motion.pan != 0 {
        let scale = state.scroll_scale_x10;
        if left {
            motion.wheel = dynamic_scale_axis(motion.wheel, scale, &mut state.left_scroll_wheel);
            motion.pan = dynamic_scale_axis(motion.pan, scale, &mut state.left_scroll_pan);
        } else {
            motion.wheel = dynamic_scale_axis(motion.wheel, scale, &mut state.right_scroll_wheel);
            motion.pan = dynamic_scale_axis(motion.pan, scale, &mut state.right_scroll_pan);
        }
    }
    motion
}

/// The fields of a HID mouse report.
#[derive(Clone, Copy, Debug, PartialEq, Eq, Structural)]
pub struct MouseReportFields {
    pub buttons: u8,
    pub x: i8,
    pub y: i8,
    pub wheel: i8,
    pub pan: i8,
}

/// What the central keeps between mouse reports: the dynamic scale and the
/// mouse buttons each trackpad last reported.
#[derive(Clone, Copy, Debug, PartialEq, Eq, Structural)]
pub struct MouseOutputState {
    pub scale: DynamicScaleState,
    pub left_buttons: u8,
    pub right_buttons: u8,
}

impl MouseOutputState {
    /// Neutral scale and no buttons held.
    pub fn new() -> (s: Self)
        ensures
            s == (MouseOutputState { scale: scale_state_initial(), left_buttons: 0, right_buttons: 0 }),
    {
        MouseOutputState { scale: DynamicScaleState::new(), left_buttons: 0, right_buttons: 0 }
    }
}

/// An axis of a mouse report.
pub open spec fn to_i8(v: i16) -> i8 {
    arith::clamp_int(v as int, -128, 127) as i8
}

/// The mouse report a motion becomes on the central, and the state after it:
/// the motion is scaled and capped; one that then carries nothing needs no
/// report; a valid button state is remembered for its side; the report holds
/// both sides' buttons and the motion's axes clamped to a byte.
pub open spec fn mouse_report_spec(s: MouseOutputState, m: TrackpadMotionEvent) -> (MouseOutputState, Option<MouseReportFields>) {
    let (scale, scaled) = apply_scale_spec(s.scale, m);
    let capped = motion::capped_spec(scaled);
    let s1 = MouseOutputState { scale, ..s };
    if motion::motion_empty(capped) {
        (s1, None)
    } else {
        let s2 = if capped.button_state_valid {
            if capped.side == TrackpadSide::Left {
                MouseOutputState { left_buttons: capped.buttons, ..s1 }
            } else {
                MouseOutputState { right_buttons: capped.buttons, ..s1 }
            }
        } else {
            s1
        };
        (s2, Some(MouseReportFields {
            buttons: s2.left_buttons | s2.right_buttons,
            x: to_i8(capped.x),
            y: to_i8(capped.y),
            wheel: to_i8(capped.wheel),
            pan: to_i8(capped.pan),
        }))
    }
}

/// The mouse report to send for a motion, if it carries anything after scaling.
pub fn mouse_report_for_motion(state: &mut MouseOutputState, motion: TrackpadMotionEvent) -> (r: Option<MouseReportFields>)
    ensures
        (*final(state), r) == mouse_report_spec(*old(state), motion),
{
    let motion = apply_dynamic_motion_scale(&mut state.scale, motion).capped();
    if motion.is_empty() {
        return None;
    }
    if motion.button_state_valid {
        match motion.side {
            TrackpadSide::Left => {
                state.left_buttons = motion.buttons;
            },
            TrackpadSide::Right => {
                state.right_buttons = motion.buttons;
            },
        }
    }
    let buttons = state.left_buttons | state.right_buttons;
    Some(
        MouseReportFields {
            buttons,
            x: clamp_i16_to_i8(motion.x),
            y: clamp_i16_to_i8(motion.y),
            wheel: clamp_i16_to_i8(motion.wheel),
            pan: clamp_i16_to_i8(motion.pan),
        },
    )
}

/// The custom-event payload a motion is forwarded across the split link as:
/// the capped motion's encoding, or nothing when it carries nothing.
pub fn split_motion_payload(motion: TrackpadMotionEvent) -> (r: Option<[u8; 16]>)
    ensures
        motion::motion_empty(motion::capped_spec(motion)) ==> r is None,
        !motion::motion_empty(motion::capped_spec(motion)) ==> r is Some && r->0@ == motion::motion_payload(
            motion::capped_spec(motion),
        ),
{
    let motion = motion.capped();
    if motion.is_empty() {
        return None;
    }
    Some(motion.encode())
}

/// The key edges and motion a pinch report stands for on the central: the
/// pinch key pressed when the pinch starts (then a short settle), the wheel
/// motion if any, and the pinch key released when it ends.
#[derive(Clone, Copy, Debug, PartialEq, Eq, Structural)]
pub struct PinchSteps {
    pub press: Option<KeyboardEvent>,
    pub motion: Option<TrackpadMotionEvent>,
    pub release: Option<KeyboardEvent>,
}

/// Milliseconds the pinch key is given to settle before the first wheel step.
pub const PINCH_KEY_SETTLE_MS: u32 = 20;

/// The steps for a pinch report.
pub open spec fn pinch_steps_spec(report: TrackpadPinchReport) -> PinchSteps {
    let pos = buttons::button_position_spec(report.side, TrackpadButton::Pinch);
    PinchSteps {
        press: if report.started {
            Some(KeyboardEvent { row: pos.row, col: pos.col, pressed: true })
        } else {
            None
        },
        motion: if motion::motion_empty(report.motion) {
            None
        } else {
            Some(report.motion)
        },
        release: if report.ended {
            Some(KeyboardEvent { row: pos.row, col: pos.col, pressed: false })
        } else {
            None
        },
    }
}

/// The key edges and motion a pinch report stands for.
pub fn pinch_report_steps(report: TrackpadPinchReport) -> (r: PinchSteps)
    ensures
        r == pinch_steps_spec(report),
{
    let position = trackpad_button_position(report.side, TrackpadButton::Pinch);
    let press = if report.started {
        Some(KeyboardEvent::key(position.row, position.col, true))
    } else {
        None
    };
    let motion = if !report.motion.is_empty() {
        Some(report.motion)
    } else {
        None
    };
    let release = if report.ended {
        Some(KeyboardEvent::key(position.row, position.col, false))
    } else {
        None
    };
    PinchSteps { press, motion, release }
}

/// Where a keyboard controller sends trackpad output: the central's HID
/// reports, or the split link from a peripheral.
#[derive(Clone, Copy, Debug, PartialEq, Eq, Structural)]
pub enum Iqs9151ControllerTarget {
    HidReport,
    SplitEvent,
}

/// What a controller does with an incoming custom event.
#[derive(Clone, Copy, Debug, PartialEq, Eq)]
pub enum CustomEventAction {
    /// A dynamic-scale command, already applied to the scale state.
    ScaleApplied,
    /// A pinch report to carry out as key edges and a mouse report.
    HidPinch(TrackpadPinchReport),
    /// A motion to send as a mouse report.
    HidMotion(TrackpadMotionEvent),
    /// A pinch payload to forward unchanged across the split link.
    SplitForward([u8; 16]),
    /// A motion to forward across the split link.
    SplitMotion(TrackpadMotionEvent),
    /// Nothing this controller handles.
    Ignore,
}

/// Dispatch a custom event: a dynamic-scale command is applied to `scale`;
/// otherwise, on the central, a pinch report or a motion is carried out, and
/// on a peripheral a pinch payload is forwarded as is and a motion re-sent.
pub fn custom_event_action(scale: &mut DynamicScaleState, payload: [u8; 16], target: Iqs9151ControllerTarget) -> (r: CustomEventAction)
    ensures
        match motion::decode_scale_spec(payload@) {
            Some(e) => *final(scale) == scale_apply_spec(*old(scale), e) && r == CustomEventAction::ScaleApplied,
            None => *final(scale) == *old(scale) && r == match target {
                Iqs9151ControllerTarget::HidReport => match motion::decode_pinch_spec(payload@) {
                    Some(p) => CustomEventAction::HidPinch(p),
                    None => match motion::decode_motion_spec(payload@) {
                        Some(m) => CustomEventAction::HidMotion(m),
                        None => CustomEventAction::Ignore,
                    },
                },
                Iqs9151ControllerTarget::SplitEvent => match motion::decode_pinch_spec(payload@) {
                    Some(_) => CustomEventAction::SplitForward(payload),
                    None => match motion::decode_motion_spec(payload@) {
                        Some(m) => CustomEventAction::SplitMotion(m),
                        None => CustomEventAction::Ignore,
                    },
                },
            },
        },
{
    if let Some(event) = TrackpadDynamicScaleEvent::decode(payload) {
        event.apply(scale);
        return CustomEventAction::ScaleApplied;
    }
    match target {
        Iqs9151ControllerTarget::HidReport => {
            if let Some(pinch) = TrackpadPinchReport::decode(payload) {
                CustomEventAction::HidPinch(pinch)
            } else if let Some(motion) = TrackpadMotionEvent::decode(payload) {
                CustomEventAction::HidMotion(motion)
            } else {
                CustomEventAction::Ignore
            }
        },
        Iqs9151ControllerTarget::SplitEvent => {
            if TrackpadPinchReport::decode(payload).is_some() {
                CustomEventAction::SplitForward(payload)
            } else if let Some(motion) = TrackpadMotionEvent::decode(payload) {
                CustomEventAction::SplitMotion(motion)
            } else {
                CustomEventAction::Ignore
            }
        },
    }
}

// ---------------------------------------------------------------- laws

/// Scaling an axis loses nothing: the scaled value times ten plus the new
/// remainder is the input times the scale plus the old remainder (up to
/// saturation), and the remainder stays under ten in magnitude, with the
/// sign of the total.
pub proof fn lemma_scale_axis_carries_remainder(value: i16, scale_x10: u16, remainder: i32)
    ensures
        ({
            let total = arith::sat_i32(value * scale_x10 + remainder) as int;
            let q = arith::trunc_div(total, 10);
            let (r, rem) = scale_axis_spec(value, scale_x10, remainder);
            &&& q * 10 + rem == total
            &&& -10 < rem < 10
            &&& (total >= 0 ==> rem >= 0)
            &&& (total <= 0 ==> rem <= 0)
            &&& r == arith::sat_i16(q)
        }),
{
    let total = arith::sat_i32(value * scale_x10 + remainder) as int;
    crate::iqs9151::motion::lemma_trunc_div(total, 10);
}

/// The dynamic scales never leave their range: stepping, resetting and any
/// command keep both within `[MIN_DYNAMIC_SCALE_X10, MAX_DYNAMIC_SCALE_X10]`.
pub proof fn lemma_scale_stays_in_range(s: DynamicScaleState, e: TrackpadDynamicScaleEvent, group: TrackpadDynamicScaleGroup, delta: i16)
    requires
        scale_state_wf(s),
    ensures
        scale_state_wf(scale_apply_spec(s, e)),
        scale_state_wf(scale_step_spec(s, group, delta)),
        scale_state_wf(scale_reset_spec(s, group)),
{
}

/// An increment undone by a decrement: below the maximum, stepping a group
/// up and then down gives back its scale (with the remainders cleared).
pub proof fn lemma_scale_step_undone(s: DynamicScaleState, group: TrackpadDynamicScaleGroup)
    requires
        scale_state_wf(s),
        group != TrackpadDynamicScaleGroup::Scroll ==> s.cursor_scale_x10 < MAX_DYNAMIC_SCALE_X10,
        group != TrackpadDynamicScaleGroup::Cursor ==> s.scroll_scale_x10 < MAX_DYNAMIC_SCALE_X10,
    ensures
        scale_step_spec(scale_step_spec(s, group, 1i16), group, -1i16) == clear_remainders(s),
{
}

/// Resetting all scales gives back the start-up state.
pub proof fn lemma_scale_reset_all(s: DynamicScaleState)
    ensures
        scale_reset_spec(s, TrackpadDynamicScaleGroup::All) == scale_state_initial(),
{
}

/// The scroll remainders of the side a motion comes from are both zero.
pub open spec fn scroll_remainders_clear(s: DynamicScaleState, side: TrackpadSide) -> bool {
    if side == TrackpadSide::Left {
        s.left_scroll_wheel == 0 && s.left_scroll_pan == 0
    } else {
        s.right_scroll_wheel == 0 && s.right_scroll_pan == 0
    }
}

/// The cursor remainders of the side a motion comes from are both zero.
pub open spec fn cursor_remainders_clear(s: DynamicScaleState, side: TrackpadSide) -> bool {
    if side == TrackpadSide::Left {
        s.left_cursor_x == 0 && s.left_cursor_y == 0
    } else {
        s.right_cursor_x == 0 && s.right_cursor_y == 0
    }
}

/// Each scale acts on its own axes only. Wheel and pan depend on the scroll
/// scale and never on the cursor scale; cursor x and y depend on the cursor
/// scale and never on the scroll scale. At 1.0x with no carried remainder an
/// axis passes through unchanged, and the side and buttons always do.
pub proof fn lemma_scales_act_on_their_own_axes(s: DynamicScaleState, m: TrackpadMotionEvent, c: u16, w: u16)
    ensures
        apply_scale_spec(DynamicScaleState { cursor_scale_x10: c, ..s }, m).1.wheel == apply_scale_spec(s, m).1.wheel,
        apply_scale_spec(DynamicScaleState { cursor_scale_x10: c, ..s }, m).1.pan == apply_scale_spec(s, m).1.pan,
        apply_scale_spec(DynamicScaleState { scroll_scale_x10: w, ..s }, m).1.x == apply_scale_spec(s, m).1.x,
        apply_scale_spec(DynamicScaleState { scroll_scale_x10: w, ..s }, m).1.y == apply_scale_spec(s, m).1.y,
        s.scroll_scale_x10 == 10 && scroll_remainders_clear(s, m.side) ==> apply_scale_spec(s, m).1.wheel == m.wheel
            && apply_scale_spec(s, m).1.pan == m.pan,
        s.cursor_scale_x10 == 10 && cursor_remainders_clear(s, m.side) ==> apply_scale_spec(s, m).1.x == m.x
            && apply_scale_spec(s, m).1.y == m.y,
        apply_scale_spec(s, m).1.side == m.side,
        apply_scale_spec(s, m).1.buttons == m.buttons,
        apply_scale_spec(s, m).1.button_state_valid == m.button_state_valid,
{
}

} // verus!
