//! Pointer motion events, their 16-byte custom-event wire form, pinch and
//! dynamic-scale custom events, and the cursor/scroll scaling configurations.
use vstd::prelude::*;
use crate::rmk::Event;
use crate::iqs9151::arith::{
    self, clamp_i32_to_i16, clamp_i64_to_i16, clamp_pending_motion, clamp_pending_scroll,
    clamp_scroll_step, sat_abs_i16, sat_add_i16, sat_add_i32, sat_neg_i16,
    DEFAULT_SCROLL_MAX_STEP,
};
use crate::iqs9151::buttons::{self, TrackpadSide};

verus! {

/// Custom event kind carrying a pointer motion.
pub const CUSTOM_EVENT_POINTER_MOTION: u8 = 1;

/// Custom event kind carrying a dynamic-scale command.
pub const CUSTOM_EVENT_DYNAMIC_SCALE: u8 = 2;

/// Custom event kind carrying a pinch report.
pub const CUSTOM_EVENT_PINCH_REPORT: u8 = 3;

/// Default cursor divisor: sensor deltas pass through unscaled.
pub const DEFAULT_CURSOR_DIVISOR: u16 = 1;

/// Default active-scroll divisor.
pub const DEFAULT_SCROLL_DIVISOR: u16 = 12;

/// Default divisor for slow scroll deltas.
pub const DEFAULT_SCROLL_LOW_SPEED_DIVISOR: u16 = 24;

/// Deltas at or below this magnitude use the low-speed divisor.
pub const DEFAULT_SCROLL_LOW_SPEED_THRESHOLD: i16 = 48;

/// Default inertia-scroll divisor.
pub const DEFAULT_SCROLL_INERTIA_DIVISOR: u16 = 12;

/// Default per-report step bound of inertia scroll: one notch.
pub const DEFAULT_SCROLL_INERTIA_MAX_STEP: i16 = 1;

/// Fixed-point shift of the scroll smoothing filter.
pub const SCROLL_SMOOTHING_FP_SHIFT: u8 = 8;

/// Largest wheel step a pinch produces per report.
pub const PINCH_WHEEL_MAX_STEP: i16 = 1;

/// The 16-bit two's-complement pattern of an `i16`.
pub open spec fn u16_bits(x: i16) -> int {
    if x < 0 {
        x + 65536
    } else {
        x as int
    }
}

/// Low byte of the little-endian form of `x`.
pub open spec fn lo_byte(x: i16) -> u8 {
    (u16_bits(x) % 256) as u8
}

/// High byte of the little-endian form of `x`.
pub open spec fn hi_byte(x: i16) -> u8 {
    (u16_bits(x) / 256) as u8
}

/// The `i16` whose little-endian bytes are `lo, hi`.
pub open spec fn i16_from_bytes(lo: u8, hi: u8) -> i16 {
    let u = lo + 256 * hi;
    if u >= 32768 {
        (u - 65536) as i16
    } else {
        u as i16
    }
}

/// Little-endian bytes of an `i16`.
pub fn i16_le_bytes(x: i16) -> (r: (u8, u8))
    ensures
        r.0 == lo_byte(x),
        r.1 == hi_byte(x),
{
    let u: u16 = if x < 0 {
        (x as i32 + 65536) as u16
    } else {
        x as u16
    };
    ((u % 256) as u8, (u / 256) as u8)
}

/// The `i16` with little-endian bytes `lo, hi`.
pub fn i16_from_le_bytes(lo: u8, hi: u8) -> (r: i16)
    ensures
        r == i16_from_bytes(lo, hi),
{
    let u: u32 = lo as u32 + (hi as u32) * 256;
    if u >= 32768 {
        (u as i32 - 65536) as i16
    } else {
        u as i16
    }
}

/// Decoding the bytes of an `i16` gives it back.
pub proof fn lemma_i16_bytes_roundtrip(x: i16)
    ensures
        i16_from_bytes(lo_byte(x), hi_byte(x)) == x,
{
}

/// Whether a payload starts with the `IQSP` tag followed by `kind`.
pub open spec fn payload_is(p: Seq<u8>, kind: u8) -> bool {
    &&& p.len() == 16
    &&& p[0] == 0x49u8
    &&& p[1] == 0x51u8
    &&& p[2] == 0x53u8
    &&& p[3] == 0x50u8
    &&& p[4] == kind
}

/// Whether a payload is a custom event of `kind`.
pub fn custom_event_is(payload: [u8; 16], kind: u8) -> (r: bool)
    ensures
        r == payload_is(payload@, kind),
{
    payload[0] == 0x49u8 && payload[1] == 0x51u8 && payload[2] == 0x53u8 && payload[3] == 0x50u8
        && payload[4] == kind
}

/// A payload of `kind` with every data byte zero.
pub fn custom_event_payload(kind: u8) -> (r: [u8; 16])
    ensures
        payload_is(r@, kind),
        forall|i: int| 5 <= i < 16 ==> r@[i] == 0u8,
{
    [0x49u8, 0x51u8, 0x53u8, 0x50u8, kind, 0, 0, 0, 0, 0, 0, 0, 0, 0, 0, 0]
}

/// A cursor/scroll/button report from one trackpad.
#[derive(Clone, Copy, Debug, PartialEq, Eq, Structural)]
pub struct TrackpadMotionEvent {
    pub side: TrackpadSide,
    pub x: i16,
    pub y: i16,
    pub wheel: i16,
    pub pan: i16,
    pub buttons: u8,
    pub button_state_valid: bool,
}

/// A cursor-only motion.
pub open spec fn cursor_spec(side: TrackpadSide, x: i16, y: i16) -> TrackpadMotionEvent {
    TrackpadMotionEvent { side, x, y, wheel: 0, pan: 0, buttons: 0, button_state_valid: false }
}

/// A scroll-only motion.
pub open spec fn scroll_spec(side: TrackpadSide, wheel: i16, pan: i16) -> TrackpadMotionEvent {
    TrackpadMotionEvent { side, x: 0, y: 0, wheel, pan, buttons: 0, button_state_valid: false }
}

/// A motion that only carries a mouse button state.
pub open spec fn button_state_spec(side: TrackpadSide, buttons: u8) -> TrackpadMotionEvent {
    TrackpadMotionEvent { side, x: 0, y: 0, wheel: 0, pan: 0, buttons, button_state_valid: true }
}

/// A motion with its cursor deltas capped to the pending-motion bound and its
/// scroll deltas capped to the default scroll step.
pub open spec fn capped_spec(m: TrackpadMotionEvent) -> TrackpadMotionEvent {
    TrackpadMotionEvent {
        side: m.side,
        x: arith::clamp_int(m.x as int, -36, 36) as i16,
        y: arith::clamp_int(m.y as int, -36, 36) as i16,
        wheel: arith::clamp_int(m.wheel as int, -2, 2) as i16,
        pan: arith::clamp_int(m.pan as int, -2, 2) as i16,
        buttons: m.buttons,
        button_state_valid: m.button_state_valid,
    }
}

/// Two motions of one side added up (each axis capped), keeping the newest
/// valid button state; a motion from the other side replaces the first.
pub open spec fn merge_spec(a: TrackpadMotionEvent, b: TrackpadMotionEvent) -> TrackpadMotionEvent {
    if a.side != b.side {
        capped_spec(b)
    } else {
        TrackpadMotionEvent {
            side: a.side,
            x: arith::clamp_int(arith::sat_i16(a.x + b.x) as int, -36, 36) as i16,
            y: arith::clamp_int(arith::sat_i16(a.y + b.y) as int, -36, 36) as i16,
            wheel: arith::clamp_int(arith::sat_i16(a.wheel + b.wheel) as int, -2, 2) as i16,
            pan: arith::clamp_int(arith::sat_i16(a.pan + b.pan) as int, -2, 2) as i16,
            buttons: if b.button_state_valid {
                b.buttons
            } else {
                a.buttons
            },
            button_state_valid: a.button_state_valid || b.button_state_valid,
        }
    }
}

/// Whether a motion carries nothing at all.
pub open spec fn motion_empty(m: TrackpadMotionEvent) -> bool {
    m.x == 0 && m.y == 0 && m.wheel == 0 && m.pan == 0 && !m.button_state_valid
}

/// The wire bytes of a motion event.
pub open spec fn motion_payload(m: TrackpadMotionEvent) -> Seq<u8> {
    seq![
        0x49u8,
        0x51u8,
        0x53u8,
        0x50u8,
        CUSTOM_EVENT_POINTER_MOTION,
        buttons::side_wire(m.side),
        lo_byte(m.x),
        hi_byte(m.x),
        lo_byte(m.y),
        hi_byte(m.y),
        lo_byte(m.wheel),
        hi_byte(m.wheel),
        lo_byte(m.pan),
        hi_byte(m.pan),
        m.buttons,
        if m.button_state_valid {
            1u8
        } else {
            0u8
        },
    ]
}

/// The motion event a payload carries, if it is a well-formed motion payload.
pub open spec fn decode_motion_spec(p: Seq<u8>) -> Option<TrackpadMotionEvent> {
    if !payload_is(p, CUSTOM_EVENT_POINTER_MOTION) {
        None
    } else {
        match buttons::side_from_wire_spec(p[5]) {
            None => None,
            Some(side) => Some(
                TrackpadMotionEvent {
                    side,
                    x: i16_from_bytes(p[6], p[7]),
                    y: i16_from_bytes(p[8], p[9]),
                    wheel: i16_from_bytes(p[10], p[11]),
                    pan: i16_from_bytes(p[12], p[13]),
                    buttons: p[14],
                    button_state_valid: p[15] % 2 == 1,
                },
            ),
        }
    }
}

impl TrackpadMotionEvent {
    /// A cursor-only motion.
    pub fn cursor(side: TrackpadSide, x: i16, y: i16) -> (r: Self)
        ensures
            r == cursor_spec(side, x, y),
    {
        TrackpadMotionEvent { side, x, y, wheel: 0, pan: 0, buttons: 0, button_state_valid: false }
    }

    /// A scroll-only motion.
    pub fn scroll(side: TrackpadSide, wheel: i16, pan: i16) -> (r: Self)
        ensures
            r == scroll_spec(side, wheel, pan),
    {
        TrackpadMotionEvent { side, x: 0, y: 0, wheel, pan, buttons: 0, button_state_valid: false }
    }

    /// A motion that only reports the mouse button state.
    pub fn button_state(side: TrackpadSide, buttons: u8) -> (r: Self)
        ensures
            r == button_state_spec(side, buttons),
    {
        TrackpadMotionEvent { side, x: 0, y: 0, wheel: 0, pan: 0, buttons, button_state_valid: true }
    }

    /// This motion with a valid button state attached.
    pub fn with_button_state(self, buttons: u8) -> (r: Self)
        ensures
            r == (TrackpadMotionEvent { buttons, button_state_valid: true, ..self }),
    {
        TrackpadMotionEvent { buttons, button_state_valid: true, ..self }
    }

    /// The custom event that carries this motion.
    pub fn into_rmk_event(self) -> (r: Event)
        ensures
            r matches Event::Custom(p) && p@ == motion_payload(self),
    {
        Event::Custom(self.encode())
    }

    /// The 16-byte wire form of this motion.
    pub fn encode(self) -> (r: [u8; 16])
        ensures
            r@ == motion_payload(self),
    {
        let (x0, x1) = i16_le_bytes(self.x);
        let (y0, y1) = i16_le_bytes(self.y);
        let (w0, w1) = i16_le_bytes(self.wheel);
        let (p0, p1) = i16_le_bytes(self.pan);
        let valid: u8 = if self.button_state_valid {
            1
        } else {
            0
        };
        let r = [
            0x49u8,
            0x51u8,
            0x53u8,
            0x50u8,
            CUSTOM_EVENT_POINTER_MOTION,
            self.side.to_wire(),
            x0,
            x1,
            y0,
            y1,
            w0,
            w1,
            p0,
            p1,
            self.buttons,
            valid,
        ];
        assert(r@ =~= motion_payload(self));
        r
    }

    /// The motion a payload carries, if it is a motion payload naming a known side.
    pub fn decode(payload: [u8; 16]) -> (r: Option<Self>)
        ensures
            r == decode_motion_spec(payload@),
    {
        if !custom_event_is(payload, CUSTOM_EVENT_POINTER_MOTION) {
            return None;
        }
        let side = match TrackpadSide::from_wire(payload[5]) {
            Some(s) => s,
            None => {
                return None;
            },
        };
        Some(
            TrackpadMotionEvent {
                side,
                x: i16_from_le_bytes(payload[6], payload[7]),
                y: i16_from_le_bytes(payload[8], payload[9]),
                wheel: i16_from_le_bytes(payload[10], payload[11]),
                pan: i16_from_le_bytes(payload[12], payload[13]),
                buttons: payload[14],
                button_state_valid: payload[15] % 2 == 1,
            },
        )
    }

    /// This motion followed by `next`, coalesced into one capped motion.
    pub fn merge(self, next: Self) -> (r: Self)
        ensures
            r == merge_spec(self, next),
    {
        if self.side != next.side {
            return next.capped();
        }
        TrackpadMotionEvent {
            side: self.side,
            x: clamp_pending_motion(sat_add_i16(self.x, next.x)),
            y: clamp_pending_motion(sat_add_i16(self.y, next.y)),
            wheel: clamp_pending_scroll(sat_add_i16(self.wheel, next.wheel)),
            pan: clamp_pending_scroll(sat_add_i16(self.pan, next.pan)),
            buttons: if next.button_state_valid {
                next.buttons
            } else {
                self.buttons
            },
            button_state_valid: self.button_state_valid || next.button_state_valid,
        }
    }

    /// This motion with every axis capped.
    pub fn capped(self) -> (r: Self)
        ensures
            r == capped_spec(self),
    {
        TrackpadMotionEvent {
            side: self.side,
            x: clamp_pending_motion(self.x),
            y: clamp_pending_motion(self.y),
            wheel: clamp_pending_scroll(self.wheel),
            pan: clamp_pending_scroll(self.pan),
            buttons: self.buttons,
            button_state_valid: self.button_state_valid,
        }
    }

    /// Whether the motion carries no movement, scroll or button state.
    pub fn is_empty(self) -> (r: bool)
        ensures
            r == motion_empty(self),
    {
        self.x == 0 && self.y == 0 && self.wheel == 0 && self.pan == 0 && !self.button_state_valid
    }
}

/// Encoding a motion and decoding the bytes gives the same motion back.
pub proof fn lemma_motion_roundtrip(m: TrackpadMotionEvent)
    ensures
        decode_motion_spec(motion_payload(m)) == Some(m),
{
    lemma_i16_bytes_roundtrip(m.x);
    lemma_i16_bytes_roundtrip(m.y);
    lemma_i16_bytes_roundtrip(m.wheel);
    lemma_i16_bytes_roundtrip(m.pan);
}

/// Capping is idempotent.
pub proof fn lemma_capped_idempotent(m: TrackpadMotionEvent)
    ensures
        capped_spec(capped_spec(m)) == capped_spec(m),
{
}

/// A pinch report: whether the pinch key goes down or up, plus the wheel motion.
#[derive(Clone, Copy, Debug, PartialEq, Eq, Structural)]
pub struct TrackpadPinchReport {
    pub side: TrackpadSide,
    pub started: bool,
    pub ended: bool,
    pub motion: TrackpadMotionEvent,
}

/// The wire bytes of a pinch report.
pub open spec fn pinch_payload(r: TrackpadPinchReport) -> Seq<u8> {
    seq![
        0x49u8,
        0x51u8,
        0x53u8,
        0x50u8,
        CUSTOM_EVENT_PINCH_REPORT,
        buttons::side_wire(r.side),
        ((if r.started {
            1int
        } else {
            0int
        }) + (if r.ended {
            2int
        } else {
            0int
        })) as u8,
        0u8,
        lo_byte(r.motion.wheel),
        hi_byte(r.motion.wheel),
        lo_byte(r.motion.pan),
        hi_byte(r.motion.pan),
        0u8,
        0u8,
        0u8,
        0u8,
    ]
}

/// The pinch report a payload carries, if any.
pub open spec fn decode_pinch_spec(p: Seq<u8>) -> Option<TrackpadPinchReport> {
    if !payload_is(p, CUSTOM_EVENT_PINCH_REPORT) {
        None
    } else {
        match buttons::side_from_wire_spec(p[5]) {
            None => None,
            Some(side) => Some(
                TrackpadPinchReport {
                    side,
                    started: p[6] % 2 == 1,
                    ended: (p[6] / 2) % 2 == 1,
                    motion: scroll_spec(
                        side,
                        i16_from_bytes(p[8], p[9]),
                        i16_from_bytes(p[10], p[11]),
                    ),
                },
            ),
        }
    }
}

impl TrackpadPinchReport {
    /// A pinch report.
    pub fn new(side: TrackpadSide, started: bool, ended: bool, motion: TrackpadMotionEvent) -> (r:
        Self)
        ensures
            r == (TrackpadPinchReport { side, started, ended, motion }),
    {
        TrackpadPinchReport { side, started, ended, motion }
    }

    /// The 16-byte wire form: flags in byte 6, wheel and pan after it.
    pub fn encode(self) -> (r: [u8; 16])
        ensures
            r@ == pinch_payload(self),
    {
        let (w0, w1) = i16_le_bytes(self.motion.wheel);
        let (p0, p1) = i16_le_bytes(self.motion.pan);
        let flags: u8 = (if self.started {
            1u8
        } else {
            0u8
        }) + (if self.ended {
            2u8
        } else {
            0u8
        });
        let r = [
            0x49u8,
            0x51u8,
            0x53u8,
            0x50u8,
            CUSTOM_EVENT_PINCH_REPORT,
            self.side.to_wire(),
            flags,
            0,
            w0,
            w1,
            p0,
            p1,
            0,
            0,
            0,
            0,
        ];
        assert(r@ =~= pinch_payload(self));
        r
    }

    /// The pinch report a payload carries, if it is a pinch payload naming a known side.
    pub fn decode(payload: [u8; 16]) -> (r: Option<Self>)
        ensures
            r == decode_pinch_spec(payload@),
    {
        if !custom_event_is(payload, CUSTOM_EVENT_PINCH_REPORT) {
            return None;
        }
        let side = match TrackpadSide::from_wire(payload[5]) {
            Some(s) => s,
            None => {
                return None;
            },
        };
        let flags = payload[6];
        let wheel = i16_from_le_bytes(payload[8], payload[9]);
        let pan = i16_from_le_bytes(payload[10], payload[11]);
        Some(
            TrackpadPinchReport {
                side,
                started: flags % 2 == 1,
                ended: (flags / 2) % 2 == 1,
                motion: TrackpadMotionEvent::scroll(side, wheel, pan),
            },
        )
    }
}

/// A pinch report whose motion is a scroll motion of its own side decodes to itself.
pub proof fn lemma_pinch_roundtrip(r: TrackpadPinchReport)
    requires
        r.motion == scroll_spec(r.side, r.motion.wheel, r.motion.pan),
    ensures
        decode_pinch_spec(pinch_payload(r)) == Some(r),
{
    lemma_i16_bytes_roundtrip(r.motion.wheel);
    lemma_i16_bytes_roundtrip(r.motion.pan);
}

/// A motion payload and a pinch payload are never confused for each other.
pub proof fn lemma_payload_kinds_disjoint(m: TrackpadMotionEvent, r: TrackpadPinchReport)
    ensures
        decode_pinch_spec(motion_payload(m)) is None,
        decode_motion_spec(pinch_payload(r)) is None,
{
}

/// What a dynamic-scale command adjusts.
#[derive(Clone, Copy, Debug, PartialEq, Eq, Structural)]
pub enum TrackpadDynamicScaleGroup {
    Cursor,
    Scroll,
    All,
}

/// How a dynamic-scale command adjusts it.
#[derive(Clone, Copy, Debug, PartialEq, Eq, Structural)]
pub enum TrackpadDynamicScaleAction {
    Increment,
    Decrement,
    Reset,
}

/// A dynamic cursor/scroll scale command carried as a custom event.
#[derive(Clone, Copy, Debug, PartialEq, Eq, Structural)]
pub struct TrackpadDynamicScaleEvent {
    pub group: TrackpadDynamicScaleGroup,
    pub action: TrackpadDynamicScaleAction,
}

/// The dynamic-scale command a payload carries, if any.
pub open spec fn decode_scale_spec(p: Seq<u8>) -> Option<TrackpadDynamicScaleEvent> {
    if !payload_is(p, CUSTOM_EVENT_DYNAMIC_SCALE) {
        None
    } else {
        let group = if p[5] == 0 {
            Some(TrackpadDynamicScaleGroup::Cursor)
        } else if p[5] == 1 {
            Some(TrackpadDynamicScaleGroup::Scroll)
        } else if p[5] == 2 {
            Some(TrackpadDynamicScaleGroup::All)
        } else {
            None
        };
        let action = if p[6] == 1 {
            Some(TrackpadDynamicScaleAction::Increment)
        } else if p[6] == 2 {
            Some(TrackpadDynamicScaleAction::Decrement)
        } else if p[6] == 3 {
            Some(TrackpadDynamicScaleAction::Reset)
        } else {
            None
        };
        match (group, action) {
            (Some(g), Some(a)) => Some(TrackpadDynamicScaleEvent { group: g, action: a }),
            _ => None,
        }
    }
}

impl TrackpadDynamicScaleEvent {
    /// A dynamic-scale command.
    pub fn new(group: TrackpadDynamicScaleGroup, action: TrackpadDynamicScaleAction) -> (r: Self)
        ensures
            r == (TrackpadDynamicScaleEvent { group, action }),
    {
        TrackpadDynamicScaleEvent { group, action }
    }

    /// The command in a payload: group in byte 5 (`0..=2`), action in byte 6 (`1..=3`).
    pub fn decode(payload: [u8; 16]) -> (r: Option<Self>)
        ensures
            r == decode_scale_spec(payload@),
    {
        if !custom_event_is(payload, CUSTOM_EVENT_DYNAMIC_SCALE) {
            return None;
        }
        let group = match payload[5] {
            0 => TrackpadDynamicScaleGroup::Cursor,
            1 => TrackpadDynamicScaleGroup::Scroll,
            2 => TrackpadDynamicScaleGroup::All,
            _ => {
                return None;
            },
        };
        let action = match payload[6] {
            1 => TrackpadDynamicScaleAction::Increment,
            2 => TrackpadDynamicScaleAction::Decrement,
            3 => TrackpadDynamicScaleAction::Reset,
            _ => {
                return None;
            },
        };
        Some(TrackpadDynamicScaleEvent { group, action })
    }
}

/// A two-finger scroll step in trackpad coordinates.
#[derive(Clone, Copy, Debug, PartialEq, Eq, Structural)]
pub struct TrackpadScrollDelta {
    pub x: i16,
    pub y: i16,
}

/// Axis inversion and swapping applied to trackpad coordinates.
#[derive(Clone, Copy, Debug, Default, PartialEq, Eq, Structural)]
pub struct TrackpadAxisTransform {
    pub invert_x: bool,
    pub invert_y: bool,
    pub swap_xy: bool,
}

/// A point after the transform: swap first, then invert each axis.
pub open spec fn transform_spec(t: TrackpadAxisTransform, x: int, y: int) -> (int, int) {
    let (a, b) = if t.swap_xy {
        (y, x)
    } else {
        (x, y)
    };
    (if t.invert_x {
        -a
    } else {
        a
    }, if t.invert_y {
        -b
    } else {
        b
    })
}

impl TrackpadAxisTransform {
    /// A transform.
    pub fn new(invert_x: bool, invert_y: bool, swap_xy: bool) -> (r: Self)
        ensures
            r == (TrackpadAxisTransform { invert_x, invert_y, swap_xy }),
    {
        TrackpadAxisTransform { invert_x, invert_y, swap_xy }
    }

    /// The identity transform.
    pub fn identity() -> (r: Self)
        ensures
            r == (TrackpadAxisTransform { invert_x: false, invert_y: false, swap_xy: false }),
    {
        TrackpadAxisTransform { invert_x: false, invert_y: false, swap_xy: false }
    }

    /// Apply the transform to a point.
    pub fn apply(self, position: (i32, i32)) -> (r: (i32, i32))
        requires
            self.invert_x ==> (if self.swap_xy {
                position.1
            } else {
                position.0
            }) > i32::MIN,
            self.invert_y ==> (if self.swap_xy {
                position.0
            } else {
                position.1
            }) > i32::MIN,
        ensures
            (r.0 as int, r.1 as int) == transform_spec(self, position.0 as int, position.1 as int),
            position.0 > i32::MIN && position.1 > i32::MIN ==> r.0 > i32::MIN && r.1 > i32::MIN,
    {
        let (mut x, mut y) = position;
        if self.swap_xy {
            let t = x;
            x = y;
            y = t;
        }
        if self.invert_x {
            x = -x;
        }
        if self.invert_y {
            y = -y;
        }
        (x, y)
    }
}

/// The divisor in use for a configured divisor (zero means one).
pub open spec fn effective_divisor(divisor: u16) -> int {
    if divisor == 0 {
        1
    } else {
        divisor as int
    }
}

/// Scaling of `value` plus a carried `remainder` by `divisor`: the quotient
/// (rounded toward zero) and the new remainder.
pub open spec fn scale_rem_spec(value: i32, divisor: u16, remainder: i32) -> (int, int) {
    let d = effective_divisor(divisor);
    let total = arith::sat_i32(value + remainder) as int;
    let q = arith::trunc_div(total, d);
    (q, total - q * d)
}

/// Facts about division rounding toward zero by a positive divisor.
pub proof fn lemma_trunc_div(a: int, d: int)
    requires
        d > 0,
    ensures
        arith::abs_int(arith::trunc_div(a, d) * d) <= arith::abs_int(a),
        arith::abs_int(a - arith::trunc_div(a, d) * d) < d,
        a >= 0 ==> arith::trunc_div(a, d) >= 0 && a - arith::trunc_div(a, d) * d >= 0,
        a <= 0 ==> arith::trunc_div(a, d) <= 0 && a - arith::trunc_div(a, d) * d <= 0,
        arith::abs_int(arith::trunc_div(a, d)) <= arith::abs_int(a),
{
    if a >= 0 {
        vstd::arithmetic::div_mod::lemma_fundamental_div_mod(a, d);
        vstd::arithmetic::div_mod::lemma_mod_pos_bound(a, d);
        vstd::arithmetic::div_mod::lemma_div_pos_is_pos(a, d);
        vstd::arithmetic::div_mod::lemma_div_is_ordered_by_denominator(a, 1, d);
        vstd::arithmetic::mul::lemma_mul_nonnegative(a / d, d);
    } else {
        let b = -a;
        let q = b / d;
        vstd::arithmetic::div_mod::lemma_fundamental_div_mod(b, d);
        vstd::arithmetic::div_mod::lemma_mod_pos_bound(b, d);
        vstd::arithmetic::div_mod::lemma_div_pos_is_pos(b, d);
        vstd::arithmetic::div_mod::lemma_div_is_ordered_by_denominator(b, 1, d);
        vstd::arithmetic::mul::lemma_mul_nonnegative(q, d);
        assert(arith::trunc_div(a, d) == -q);
        assert((-q) * d == -(q * d)) by (nonlinear_arith);
        assert(d * q == q * d) by (nonlinear_arith);
    }
}

/// Divide `value` plus the carried remainder by `divisor`, carrying the rest.
pub fn scale_with_remainder(value: i32, divisor: u16, remainder: &mut i32) -> (r: i32)
    ensures
        r as int == scale_rem_spec(value, divisor, *old(remainder)).0,
        *final(remainder) as int == scale_rem_spec(value, divisor, *old(remainder)).1,
{
    let divisor: i32 = if divisor == 0 {
        1
    } else {
        divisor as i32
    };
    let total = sat_add_i32(value, *remainder);
    proof {
        lemma_trunc_div(total as int, divisor as int);
    }
    let scaled = total / divisor;
    *remainder = total - scaled * divisor;
    scaled
}

/// Scaling with a carried remainder loses nothing: the quotient times the
/// divisor plus the new remainder is the value plus the old remainder (up to
/// saturation); the remainder stays below the divisor in magnitude and keeps
/// the sign of that total.
pub proof fn lemma_scale_remainder_conserved(value: i32, divisor: u16, remainder: i32)
    ensures
        ({
            let d = effective_divisor(divisor);
            let total = arith::sat_i32(value + remainder) as int;
            let (q, r) = scale_rem_spec(value, divisor, remainder);
            &&& d >= 1
            &&& q * d + r == total
            &&& arith::abs_int(r) < d
            &&& (total >= 0 ==> r >= 0)
            &&& (total <= 0 ==> r <= 0)
        }),
{
    let d = effective_divisor(divisor);
    lemma_trunc_div(arith::sat_i32(value + remainder) as int, d);
}

/// A scroll axis that did not move keeps its remainder and scrolls nothing
/// on that axis, so a stationary frame never drains sub-step scrolling; a
/// frame with no movement at all scrolls nothing.
pub proof fn lemma_stationary_scroll_keeps_remainder(
    side: TrackpadSide,
    rx: i16,
    ry: i16,
    rem_x: i32,
    rem_y: i32,
    divisor: u16,
    low_div: u16,
    low_thr: i16,
    max_step: i16,
)
    ensures
        ({
            let (m, nrx, nry) = scroll_limits_spec(side, rx, ry, rem_x, rem_y, divisor, low_div, low_thr, max_step);
            &&& rx == 0 ==> nrx == rem_x && (m matches Some(e) ==> e.pan == 0)
            &&& ry == 0 ==> nry == rem_y && (m matches Some(e) ==> e.wheel == 0)
            &&& rx == 0 && ry == 0 ==> m is None
        }),
{
}

/// The divisor used for one scroll axis: the low-speed divisor for small
/// non-zero deltas when a positive threshold is configured.
pub open spec fn scroll_divisor_spec(delta: i16, divisor: u16, low_div: u16, low_thr: i16) -> u16 {
    let threshold = if low_thr < 0 {
        0
    } else {
        low_thr as int
    };
    if threshold > 0 && delta != 0 && arith::sat_i16(arith::abs_int(delta as int)) <= threshold {
        low_div
    } else {
        divisor
    }
}

/// The divisor used for one scroll axis.
pub fn effective_scroll_divisor(
    delta: i16,
    divisor: u16,
    low_speed_divisor: u16,
    low_speed_threshold: i16,
) -> (r: u16)
    ensures
        r == scroll_divisor_spec(delta, divisor, low_speed_divisor, low_speed_threshold),
{
    let threshold: i16 = if low_speed_threshold < 0 {
        0
    } else {
        low_speed_threshold
    };
    if threshold > 0 && delta != 0 && sat_abs_i16(delta) <= threshold {
        low_speed_divisor
    } else {
        divisor
    }
}

/// One scroll axis scaled with a carried remainder and bounded by the step:
/// a zero delta yields zero and leaves the remainder untouched.
pub open spec fn scroll_axis_spec(value: i32, divisor: u16, remainder: i32, max_step: i16) -> (
    int,
    int,
) {
    if value == 0 {
        (0, remainder as int)
    } else {
        let (q, rem) = scale_rem_spec(value, divisor, remainder);
        let m = arith::effective_max_step(max_step as int);
        (arith::clamp_int(q, -m, m), rem)
    }
}

/// Scale one scroll axis, carrying the remainder, and bound the step.
pub fn scale_scroll_axis_with_remainder(
    value: i32,
    divisor: u16,
    remainder: &mut i32,
    max_step: i16,
) -> (r: i32)
    ensures
        r as int == scroll_axis_spec(value, divisor, *old(remainder), max_step).0,
        *final(remainder) as int == scroll_axis_spec(value, divisor, *old(remainder), max_step).1,
        -32767 <= r <= 32767,
{
    if value == 0 {
        return 0;
    }
    let scaled = scale_with_remainder(value, divisor, remainder);
    let m: i32 = if max_step <= 0 {
        1
    } else {
        max_step as i32
    };
    if scaled < -m {
        -m
    } else if scaled > m {
        m
    } else {
        scaled
    }
}

/// Cursor scaling: axis transform and divisor.
#[derive(Clone, Copy, Debug, PartialEq, Eq, Structural)]
pub struct TrackpadMotionConfig {
    pub axis_transform: TrackpadAxisTransform,
    pub divisor: u16,
}

/// The cursor motion a relative frame delta produces, with the new remainders.
pub open spec fn motion_event_spec(
    c: TrackpadMotionConfig,
    side: TrackpadSide,
    rx: i16,
    ry: i16,
    rem_x: i32,
    rem_y: i32,
) -> (Option<TrackpadMotionEvent>, i32, i32) {
    if rx == 0 && ry == 0 {
        (None, rem_x, rem_y)
    } else {
        let (tx, ty) = transform_spec(c.axis_transform, rx as int, ry as int);
        let (qx, nrx) = scale_rem_spec(tx as i32, c.divisor, rem_x);
        let (qy, nry) = scale_rem_spec(ty as i32, c.divisor, rem_y);
        let x = arith::clamp_int(qx, -32768, 32767) as i16;
        let y = arith::clamp_int(qy, -32768, 32767) as i16;
        (if x == 0 && y == 0 {
            None
        } else {
            Some(cursor_spec(side, x, y))
        }, nrx as i32, nry as i32)
    }
}

impl TrackpadMotionConfig {
    /// A cursor configuration.
    pub fn new(axis_transform: TrackpadAxisTransform, divisor: u16) -> (r: Self)
        ensures
            r == (TrackpadMotionConfig { axis_transform, divisor }),
    {
        TrackpadMotionConfig { axis_transform, divisor }
    }

    /// The cursor motion for a relative delta, carrying sub-unit remainders.
    pub fn motion_event(
        self,
        side: TrackpadSide,
        relative_x: i16,
        relative_y: i16,
        remainder_x: &mut i32,
        remainder_y: &mut i32,
    ) -> (r: Option<TrackpadMotionEvent>)
        ensures
            (r, *final(remainder_x), *final(remainder_y)) == motion_event_spec(
                self,
                side,
                relative_x,
                relative_y,
                *old(remainder_x),
                *old(remainder_y),
            ),
    {
        if relative_x == 0 && relative_y == 0 {
            return None;
        }
        let (x, y) = self.axis_transform.apply((relative_x as i32, relative_y as i32));
        let x = clamp_i32_to_i16(scale_with_remainder(x, self.divisor, remainder_x));
        let y = clamp_i32_to_i16(scale_with_remainder(y, self.divisor, remainder_y));
        if x == 0 && y == 0 {
            None
        } else {
            Some(TrackpadMotionEvent::cursor(side, x, y))
        }
    }
}

/// The default cursor configuration: no transform, the default divisor.
pub open spec fn default_motion_config_spec() -> TrackpadMotionConfig {
    TrackpadMotionConfig {
        axis_transform: TrackpadAxisTransform { invert_x: false, invert_y: false, swap_xy: false },
        divisor: DEFAULT_CURSOR_DIVISOR,
    }
}

impl Default for TrackpadMotionConfig {
    fn default() -> (r: Self)
        ensures
            r == default_motion_config_spec(),
    {
        TrackpadMotionConfig {
            axis_transform: TrackpadAxisTransform::identity(),
            divisor: DEFAULT_CURSOR_DIVISOR,
        }
    }
}

/// Scroll scaling: divisors, low-speed threshold and step bounds.
#[derive(Clone, Copy, Debug, PartialEq, Eq, Structural)]
pub struct TrackpadScrollConfig {
    pub divisor: u16,
    pub low_speed_divisor: u16,
    pub low_speed_threshold: i16,
    pub inertia_divisor: u16,
    pub max_step: i16,
    pub inertia_max_step: i16,
}

/// The scroll motion for a delta under the given limits, with new remainders:
/// horizontal movement becomes pan, vertical movement becomes inverted wheel.
pub open spec fn scroll_limits_spec(
    side: TrackpadSide,
    rx: i16,
    ry: i16,
    rem_x: i32,
    rem_y: i32,
    divisor: u16,
    low_div: u16,
    low_thr: i16,
    max_step: i16,
) -> (Option<TrackpadMotionEvent>, i32, i32) {
    let dx = scroll_divisor_spec(rx, divisor, low_div, low_thr);
    let dy = scroll_divisor_spec(ry, divisor, low_div, low_thr);
    let (sx, nrx) = scroll_axis_spec(rx as i32, dx, rem_x, max_step);
    let (sy, nry) = scroll_axis_spec(ry as i32, dy, rem_y, max_step);
    let m = arith::effective_max_step(max_step as int);
    let pan = arith::clamp_int(arith::clamp_int(sx, -32768, 32767), -m, m) as i16;
    let wheel = arith::clamp_int(arith::clamp_int(-sy, -32768, 32767), -m, m) as i16;
    (if pan == 0 && wheel == 0 {
        None
    } else {
        Some(scroll_spec(side, wheel, pan))
    }, nrx as i32, nry as i32)
}

impl TrackpadScrollConfig {
    /// A scroll configuration with the given active divisor and default limits.
    pub fn new(divisor: u16) -> (r: Self)
        ensures
            r == (TrackpadScrollConfig {
                divisor,
                low_speed_divisor: DEFAULT_SCROLL_LOW_SPEED_DIVISOR,
                low_speed_threshold: DEFAULT_SCROLL_LOW_SPEED_THRESHOLD,
                inertia_divisor: DEFAULT_SCROLL_INERTIA_DIVISOR,
                max_step: DEFAULT_SCROLL_MAX_STEP,
                inertia_max_step: DEFAULT_SCROLL_INERTIA_MAX_STEP,
            }),
    {
        TrackpadScrollConfig {
            divisor,
            low_speed_divisor: DEFAULT_SCROLL_LOW_SPEED_DIVISOR,
            low_speed_threshold: DEFAULT_SCROLL_LOW_SPEED_THRESHOLD,
            inertia_divisor: DEFAULT_SCROLL_INERTIA_DIVISOR,
            max_step: DEFAULT_SCROLL_MAX_STEP,
            inertia_max_step: DEFAULT_SCROLL_INERTIA_MAX_STEP,
        }
    }

    /// The scroll motion for an active two-finger scroll delta.
    pub fn scroll_event(
        self,
        side: TrackpadSide,
        relative_x: i16,
        relative_y: i16,
        remainder_x: &mut i32,
        remainder_y: &mut i32,
    ) -> (r: Option<TrackpadMotionEvent>)
        ensures
            (r, *final(remainder_x), *final(remainder_y)) == scroll_limits_spec(
                side,
                relative_x,
                relative_y,
                *old(remainder_x),
                *old(remainder_y),
                self.divisor,
                self.low_speed_divisor,
                self.low_speed_threshold,
                self.max_step,
            ),
    {
        self.scroll_event_with_limits(
            side,
            relative_x,
            relative_y,
            remainder_x,
            remainder_y,
            self.divisor,
            self.low_speed_divisor,
            self.low_speed_threshold,
            self.max_step,
        )
    }

    /// The scroll motion for an inertia step: inertia divisor, no low-speed
    /// divisor, inertia step bound.
    pub fn inertia_scroll_event(
        self,
        side: TrackpadSide,
        relative_x: i16,
        relative_y: i16,
        remainder_x: &mut i32,
        remainder_y: &mut i32,
    ) -> (r: Option<TrackpadMotionEvent>)
        ensures
            (r, *final(remainder_x), *final(remainder_y)) == scroll_limits_spec(
                side,
                relative_x,
                relative_y,
                *old(remainder_x),
                *old(remainder_y),
                self.inertia_divisor,
                self.inertia_divisor,
                0,
                self.inertia_max_step,
            ),
    {
        self.scroll_event_with_limits(
            side,
            relative_x,
            relative_y,
            remainder_x,
            remainder_y,
            self.inertia_divisor,
            self.inertia_divisor,
            0,
            self.inertia_max_step,
        )
    }

    fn scroll_event_with_limits(
        self,
        side: TrackpadSide,
        relative_x: i16,
        relative_y: i16,
        remainder_x: &mut i32,
        remainder_y: &mut i32,
        divisor: u16,
        low_speed_divisor: u16,
        low_speed_threshold: i16,
        max_step: i16,
    ) -> (r: Option<TrackpadMotionEvent>)
        ensures
            (r, *final(remainder_x), *final(remainder_y)) == scroll_limits_spec(
                side,
                relative_x,
                relative_y,
                *old(remainder_x),
                *old(remainder_y),
                divisor,
                low_speed_divisor,
                low_speed_threshold,
                max_step,
            ),
    {
        let divisor_x = effective_scroll_divisor(
            relative_x,
            divisor,
            low_speed_divisor,
            low_speed_threshold,
        );
        let divisor_y = effective_scroll_divisor(
            relative_y,
            divisor,
            low_speed_divisor,
            low_speed_threshold,
        );
        let sx = scale_scroll_axis_with_remainder(
            relative_x as i32,
            divisor_x,
            remainder_x,
            max_step,
        );
        let pan = clamp_scroll_step(clamp_i32_to_i16(sx), max_step);
        let sy = scale_scroll_axis_with_remainder(
            relative_y as i32,
            divisor_y,
            remainder_y,
            max_step,
        );
        let wheel = clamp_scroll_step(clamp_i32_to_i16(-sy), max_step);
        if pan == 0 && wheel == 0 {
            None
        } else {
            Some(TrackpadMotionEvent::scroll(side, wheel, pan))
        }
    }
}

/// The default scroll configuration.
pub open spec fn default_scroll_config_spec() -> TrackpadScrollConfig {
    TrackpadScrollConfig {
        divisor: DEFAULT_SCROLL_DIVISOR,
        low_speed_divisor: DEFAULT_SCROLL_LOW_SPEED_DIVISOR,
        low_speed_threshold: DEFAULT_SCROLL_LOW_SPEED_THRESHOLD,
        inertia_divisor: DEFAULT_SCROLL_INERTIA_DIVISOR,
        max_step: DEFAULT_SCROLL_MAX_STEP,
        inertia_max_step: DEFAULT_SCROLL_INERTIA_MAX_STEP,
    }
}

impl Default for TrackpadScrollConfig {
    fn default() -> (r: Self)
        ensures
            r == default_scroll_config_spec(),
    {
        TrackpadScrollConfig::new(DEFAULT_SCROLL_DIVISOR)
    }
}

/// One axis of the scroll smoothing filter: the mean of the previous output
/// and the new sample in 8-bit fixed point; a zero sample resets the filter.
pub open spec fn smooth_spec(previous_fp: i32, sample: i16) -> int {
    if sample == 0 {
        0
    } else {
        arith::trunc_div(arith::sat_i32(previous_fp + sample * 256) as int, 2)
    }
}

/// One axis of the scroll smoothing filter.
pub fn smooth_scroll_axis(previous_fp: i32, sample: i16) -> (r: i32)
    ensures
        r as int == smooth_spec(previous_fp, sample),
{
    if sample == 0 {
        return 0;
    }
    let sample_fp: i32 = (sample as i32) * 256;
    let total = sat_add_i32(previous_fp, sample_fp);
    total / 2
}

/// A fixed-point value rounded half away from zero and clamped to `i16`.
pub open spec fn round_fp_spec(value: i32, shift: u8) -> int {
    if shift == 0 {
        arith::clamp_int(value as int, -32768, 32767)
    } else {
        let p = vstd::arithmetic::power2::pow2(shift as nat) as int;
        let half = vstd::arithmetic::power2::pow2((shift - 1) as nat) as int;
        let mag = (arith::abs_int(value as int) + half) / p;
        arith::clamp_int(if value < 0 {
            -mag
        } else {
            mag
        }, -32768, 32767)
    }
}

/// A fixed-point value with `shift` fraction bits, rounded and clamped to `i16`.
pub fn fixed_point_to_i16_rounded(value: i32, shift: u8) -> (r: i16)
    requires
        shift < 64,
    ensures
        r as int == round_fp_spec(value, shift),
{
    if shift == 0 {
        return clamp_i32_to_i16(value);
    }
    let s: u64 = (shift - 1) as u64;
    proof {
        vstd::bits::lemma_u64_pow2_no_overflow(s as nat);
        vstd::bits::lemma_u64_pow2_no_overflow(shift as nat);
        vstd::arithmetic::power2::lemma_pow2_adds(s as nat, 1);
        vstd::arithmetic::power2::lemma2_to64();
        vstd::arithmetic::power2::lemma2_to64_rest();
    }
    let half: u64 = 1u64 << s;
    proof {
        vstd::bits::lemma_u64_shl_is_mul(1, s);
    }
    let magnitude: u64 = if value < 0 {
        (-(value as i64)) as u64
    } else {
        value as u64
    };
    assert(magnitude as int == arith::abs_int(value as int));
    assert(half as int == vstd::arithmetic::power2::pow2(s as nat));
    proof {
        if s < 62 {
            vstd::arithmetic::power2::lemma_pow2_strictly_increases(s as nat, 62);
        }
    }
    assert(half <= 0x4000_0000_0000_0000u64);
    let total: u64 = magnitude + half;
    let rounded_magnitude: u64 = total >> (shift as u64);
    proof {
        vstd::bits::lemma_u64_shr_is_div(total, shift as u64);
        vstd::arithmetic::power2::lemma_pow2_pos(shift as nat);
        vstd::arithmetic::div_mod::lemma_div_is_ordered_by_denominator(
            total as int,
            1,
            vstd::arithmetic::power2::pow2(shift as nat) as int,
        );
        assert(total as int / 1 == total as int);
    }
    assert(rounded_magnitude <= total);
    assert(rounded_magnitude as int == (arith::abs_int(value as int) + vstd::arithmetic::power2::pow2((shift - 1) as nat)) / vstd::arithmetic::power2::pow2(shift as nat) as int);
    let rounded: i64 = if value < 0 {
        -(rounded_magnitude as i64)
    } else {
        rounded_magnitude as i64
    };
    clamp_i64_to_i16(rounded)
}

/// The wheel motion of a pinch step: direction reversed, one step at most.
pub open spec fn pinch_motion_spec(side: TrackpadSide, wheel: i16) -> Option<TrackpadMotionEvent> {
    let w = arith::clamp_int(arith::sat_i16(-wheel) as int, -1, 1) as i16;
    if w == 0 {
        None
    } else {
        Some(scroll_spec(side, w, 0))
    }
}

/// The wheel motion of a pinch step.
pub fn pinch_wheel_to_motion(side: TrackpadSide, wheel: i16) -> (r: Option<TrackpadMotionEvent>)
    ensures
        r == pinch_motion_spec(side, wheel),
{
    let wheel = clamp_scroll_step(sat_neg_i16(wheel), PINCH_WHEEL_MAX_STEP);
    if wheel == 0 {
        None
    } else {
        Some(TrackpadMotionEvent::scroll(side, wheel, 0))
    }
}

} // verus!
