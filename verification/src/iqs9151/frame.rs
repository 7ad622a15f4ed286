//! The IQS9151 coordinate frame: register layout, parsing from the 28-byte
//! coordinate block, status flags and finger-position helpers.
use vstd::prelude::*;
use crate::iqs9151::arith::{self, clamp_i32_to_i16, sat_abs_i16, sat_sub_i32, abs_i32};
use crate::iqs9151::buttons::TrackpadButton;
use crate::iqs9151::gesture::TrackpadGestureEvent;
use crate::iqs9151::motion::{self, TrackpadAxisTransform, TrackpadScrollDelta};

verus! {

/// Default 7-bit I2C address of the sensor.
pub const I2C_ADDRESS: u8 = 0x56;

/// Product number the sensor reports.
pub const PRODUCT_NUMBER: u16 = 0x09bc;

pub const ADDR_PRODUCT_NUMBER: u16 = 0x1000;
pub const ADDR_RELATIVE_X: u16 = 0x1014;
pub const ADDR_RELATIVE_Y: u16 = 0x1016;
pub const ADDR_SINGLE_GESTURES: u16 = 0x101c;
pub const ADDR_TWO_FINGER_GESTURES: u16 = 0x101e;
pub const ADDR_INFO_FLAGS: u16 = 0x1020;
pub const ADDR_TRACKPAD_FLAGS: u16 = 0x1022;
pub const ADDR_FINGER1_X: u16 = 0x1024;
pub const ADDR_FINGER1_Y: u16 = 0x1026;
pub const ADDR_FINGER2_X: u16 = 0x102c;
pub const ADDR_FINGER2_Y: u16 = 0x102e;
pub const ADDR_TOUCH_STATUS: u16 = 0x105c;
pub const ADDR_ALP_COMPENSATION: u16 = 0x115c;
pub const ADDR_SETTINGS_MINOR: u16 = 0x1178;
pub const ADDR_TIMING_SETTINGS: u16 = 0x11a2;
pub const ADDR_TRACKPAD_ATI_TARGET: u16 = 0x1196;
pub const ADDR_SYSTEM_CONTROL: u16 = 0x11bc;
pub const ADDR_CONFIG_SETTINGS: u16 = 0x11be;
pub const ADDR_TRACKPAD_SETTINGS: u16 = 0x11e2;
pub const ADDR_X_RESOLUTION: u16 = 0x11e6;
pub const ADDR_Y_RESOLUTION: u16 = 0x11e8;
pub const ADDR_XY_DYNAMIC_FILTER_BOTTOM_SPEED: u16 = 0x11ea;
pub const ADDR_XY_DYNAMIC_FILTER_TOP_SPEED: u16 = 0x11ec;
pub const ADDR_XY_DYNAMIC_FILTER_BOTTOM_BETA: u16 = 0x11ee;
pub const ADDR_GESTURE_ENABLE: u16 = 0x11f6;
pub const ADDR_TWO_FINGER_GESTURE_ENABLE: u16 = 0x11f8;
pub const ADDR_RX_TX_MAPPING: u16 = 0x1218;
pub const ADDR_CHANNEL_DISABLE: u16 = 0x1246;
pub const ADDR_SNAP_ENABLE: u16 = 0x129e;

/// First register of the coordinate block.
pub const COORD_BLOCK_START: u16 = ADDR_RELATIVE_X;

/// Length in bytes of the coordinate block.
pub const COORD_BLOCK_LENGTH: usize = 0x1c;

pub const INFO_SHOW_RESET: u16 = 0x0080;
pub const INFO_GLOBAL_TP_TOUCH: u16 = 0x0200;
pub const INFO_TP_TOUCH_TOGGLED: u16 = 0x2000;

pub const TP_MOVEMENT_DETECTED: u16 = 0x0010;
pub const TP_FINGER_COUNT_MASK: u16 = 0x000f;
pub const TP_FINGER1_CONFIDENCE: u16 = 0x0100;
pub const TP_FINGER2_CONFIDENCE: u16 = 0x0200;

pub const TRACKPAD_SETTING_FLIP_X: u16 = 0x0001;
pub const TRACKPAD_SETTING_FLIP_Y: u16 = 0x0002;
pub const TRACKPAD_SETTING_SWITCH_XY: u16 = 0x0004;

pub const SYS_CTRL_SW_RESET: u16 = 0x0200;
pub const SYS_CTRL_ACK_RESET: u16 = 0x0080;
pub const SYS_CTRL_ALP_RE_ATI: u16 = 0x0040;
pub const SYS_CTRL_TP_RE_ATI: u16 = 0x0020;
pub const CFG_TP_TOUCH_EVENT_EN: u16 = 0x2000;
pub const CFG_TP_EVENT_EN: u16 = 0x0400;
pub const CFG_GESTURE_EVENT_EN: u16 = 0x0200;
pub const CFG_EVENT_MODE: u16 = 0x0100;
pub const SFG_SINGLE_TAP: u16 = 0x0001;
pub const TFG_TWO_TAP: u16 = 0x0001;

pub const DEFAULT_X_RESOLUTION: u16 = 2457;
pub const DEFAULT_Y_RESOLUTION: u16 = 3072;
pub const DEFAULT_TRACKPAD_ATI_TARGET: u16 = 400;
pub const DEFAULT_DYNAMIC_FILTER_BOTTOM_SPEED: u16 = 30;
pub const DEFAULT_DYNAMIC_FILTER_TOP_SPEED: u16 = 511;
pub const DEFAULT_DYNAMIC_FILTER_BOTTOM_BETA: u8 = 20;

/// An absolute finger position; `0xffff` on either axis marks it invalid.
#[derive(Clone, Copy, Debug, Default, PartialEq, Eq, Structural)]
pub struct FingerPosition {
    pub x: u16,
    pub y: u16,
}

/// One decoded coordinate block.
#[derive(Clone, Copy, Debug, Default, PartialEq, Eq, Structural)]
pub struct CoordinateFrame {
    pub relative_x: i16,
    pub relative_y: i16,
    pub single_gestures: u16,
    pub two_finger_gestures: u16,
    pub info_flags: u16,
    pub trackpad_flags: u16,
    pub finger1: FingerPosition,
    pub finger2: FingerPosition,
}

/// The `u16` with little-endian bytes `lo, hi`.
pub open spec fn u16_from_bytes(lo: u8, hi: u8) -> u16 {
    (lo + 256 * hi) as u16
}

/// The frame a 28-byte coordinate block encodes.
pub open spec fn parse_spec(b: Seq<u8>) -> CoordinateFrame {
    CoordinateFrame {
        relative_x: motion::i16_from_bytes(b[0], b[1]),
        relative_y: motion::i16_from_bytes(b[2], b[3]),
        single_gestures: u16_from_bytes(b[8], b[9]),
        two_finger_gestures: u16_from_bytes(b[10], b[11]),
        info_flags: u16_from_bytes(b[12], b[13]),
        trackpad_flags: u16_from_bytes(b[14], b[15]),
        finger1: FingerPosition { x: u16_from_bytes(b[16], b[17]), y: u16_from_bytes(b[18], b[19]) },
        finger2: FingerPosition { x: u16_from_bytes(b[24], b[25]), y: u16_from_bytes(b[26], b[27]) },
    }
}

/// The number of fingers a frame reports (low four bits of the trackpad flags).
pub open spec fn finger_count_spec(f: CoordinateFrame) -> u8 {
    (f.trackpad_flags & 0x000fu16) as u8
}

/// Whether the frame reports that the sensor has reset.
pub open spec fn show_reset_spec(f: CoordinateFrame) -> bool {
    f.info_flags & 0x0080u16 != 0
}

/// Whether the frame reports movement.
pub open spec fn movement_spec(f: CoordinateFrame) -> bool {
    f.trackpad_flags & 0x0010u16 != 0
}

/// A position that is not marked invalid.
pub open spec fn position_valid_spec(p: FingerPosition) -> bool {
    p.x != 0xffffu16 && p.y != 0xffffu16
}

/// Whether finger 1 is confident and valid in a frame.
pub open spec fn finger1_valid_spec(f: CoordinateFrame) -> bool {
    f.trackpad_flags & 0x0100u16 != 0 && position_valid_spec(f.finger1)
}

/// Whether finger 2 is confident and valid in a frame.
pub open spec fn finger2_valid_spec(f: CoordinateFrame) -> bool {
    f.trackpad_flags & 0x0200u16 != 0 && position_valid_spec(f.finger2)
}

/// The little-endian `u16` at `offset` in the block.
pub fn read_u16_le(block: &[u8; 28], offset: usize) -> (r: u16)
    requires
        offset + 1 < 28,
    ensures
        r == u16_from_bytes(block@[offset as int], block@[offset + 1]),
{
    block[offset] as u16 + (block[offset + 1] as u16) * 256
}

/// The little-endian `i16` at `offset` in the block.
pub fn read_i16_le(block: &[u8; 28], offset: usize) -> (r: i16)
    requires
        offset + 1 < 28,
    ensures
        r == motion::i16_from_bytes(block@[offset as int], block@[offset + 1]),
{
    motion::i16_from_le_bytes(block[offset], block[offset + 1])
}

impl CoordinateFrame {
    /// A frame with every field zero.
    pub fn empty() -> (r: Self)
        ensures
            r == empty_frame(),
    {
        CoordinateFrame {
            relative_x: 0,
            relative_y: 0,
            single_gestures: 0,
            two_finger_gestures: 0,
            info_flags: 0,
            trackpad_flags: 0,
            finger1: FingerPosition { x: 0, y: 0 },
            finger2: FingerPosition { x: 0, y: 0 },
        }
    }

    /// Decode the coordinate block read from `COORD_BLOCK_START`.
    pub fn parse(block: &[u8; 28]) -> (r: Self)
        ensures
            r == parse_spec(block@),
    {
        CoordinateFrame {
            relative_x: read_i16_le(block, 0x00),
            relative_y: read_i16_le(block, 0x02),
            single_gestures: read_u16_le(block, 0x08),
            two_finger_gestures: read_u16_le(block, 0x0a),
            info_flags: read_u16_le(block, 0x0c),
            trackpad_flags: read_u16_le(block, 0x0e),
            finger1: FingerPosition { x: read_u16_le(block, 0x10), y: read_u16_le(block, 0x12) },
            finger2: FingerPosition { x: read_u16_le(block, 0x18), y: read_u16_le(block, 0x1a) },
        }
    }

    /// The number of fingers on the pad.
    pub fn finger_count(self) -> (r: u8)
        ensures
            r == finger_count_spec(self),
            r < 16,
    {
        let f = self.trackpad_flags;
        assert(f & 0x000fu16 < 16) by (bit_vector);
        (f & TP_FINGER_COUNT_MASK) as u8
    }

    /// Whether the sensor reports that it has reset.
    pub fn show_reset(self) -> (r: bool)
        ensures
            r == show_reset_spec(self),
    {
        self.info_flags & INFO_SHOW_RESET != 0
    }

    /// Whether the sensor reports movement.
    pub fn movement_detected(self) -> (r: bool)
        ensures
            r == movement_spec(self),
    {
        self.trackpad_flags & TP_MOVEMENT_DETECTED != 0
    }

    /// The click the sensor's own tap gesture bits name: single tap is a left
    /// click, two-finger tap a right click.
    pub fn hardware_tap_gesture(self) -> (r: Option<TrackpadGestureEvent>)
        ensures
            r == (if self.single_gestures & 0x0001u16 != 0 {
                Some(TrackpadGestureEvent::Click(TrackpadButton::LeftClick))
            } else if self.two_finger_gestures & 0x0001u16 != 0 {
                Some(TrackpadGestureEvent::Click(TrackpadButton::RightClick))
            } else {
                None
            }),
    {
        if self.single_gestures & SFG_SINGLE_TAP != 0 {
            Some(TrackpadGestureEvent::Click(TrackpadButton::LeftClick))
        } else if self.two_finger_gestures & TFG_TWO_TAP != 0 {
            Some(TrackpadGestureEvent::Click(TrackpadButton::RightClick))
        } else {
            None
        }
    }
}

/// The all-zero frame.
pub open spec fn empty_frame() -> CoordinateFrame {
    CoordinateFrame {
        relative_x: 0,
        relative_y: 0,
        single_gestures: 0,
        two_finger_gestures: 0,
        info_flags: 0,
        trackpad_flags: 0,
        finger1: FingerPosition { x: 0, y: 0 },
        finger2: FingerPosition { x: 0, y: 0 },
    }
}

/// Whether a position is not marked invalid.
pub fn finger_position_valid(position: FingerPosition) -> (r: bool)
    ensures
        r == position_valid_spec(position),
{
    position.x != 0xffffu16 && position.y != 0xffffu16
}

/// Whether finger 1 is confident and valid.
pub fn finger1_valid(frame: CoordinateFrame) -> (r: bool)
    ensures
        r == finger1_valid_spec(frame),
{
    frame.trackpad_flags & TP_FINGER1_CONFIDENCE != 0 && finger_position_valid(frame.finger1)
}

/// Whether finger 2 is confident and valid.
pub fn finger2_valid(frame: CoordinateFrame) -> (r: bool)
    ensures
        r == finger2_valid_spec(frame),
{
    frame.trackpad_flags & TP_FINGER2_CONFIDENCE != 0 && finger_position_valid(frame.finger2)
}

/// A position after the axis transform.
pub open spec fn transformed(t: TrackpadAxisTransform, p: FingerPosition) -> (i32, i32) {
    let (x, y) = motion::transform_spec(t, p.x as int, p.y as int);
    (x as i32, y as i32)
}

/// Finger 1's transformed position: from this frame when valid, else from
/// the previous frame when valid there.
pub open spec fn finger1_position_spec(
    frame: CoordinateFrame,
    prev: CoordinateFrame,
    t: TrackpadAxisTransform,
) -> Option<(i32, i32)> {
    if finger1_valid_spec(frame) {
        Some(transformed(t, frame.finger1))
    } else if finger1_valid_spec(prev) {
        Some(transformed(t, prev.finger1))
    } else {
        None
    }
}

/// Finger 2's transformed position, with the same fallback.
pub open spec fn finger2_position_spec(
    frame: CoordinateFrame,
    prev: CoordinateFrame,
    t: TrackpadAxisTransform,
) -> Option<(i32, i32)> {
    if finger2_valid_spec(frame) {
        Some(transformed(t, frame.finger2))
    } else if finger2_valid_spec(prev) {
        Some(transformed(t, prev.finger2))
    } else {
        None
    }
}

fn transform_position(t: TrackpadAxisTransform, p: FingerPosition) -> (r: (i32, i32))
    ensures
        r == transformed(t, p),
        -65535 <= r.0 <= 65535,
        -65535 <= r.1 <= 65535,
{
    t.apply((p.x as i32, p.y as i32))
}

/// Finger 1's transformed position with previous-frame fallback.
pub fn get_finger1_position(
    frame: CoordinateFrame,
    prev_frame: CoordinateFrame,
    axis_transform: TrackpadAxisTransform,
) -> (r: Option<(i32, i32)>)
    ensures
        r == finger1_position_spec(frame, prev_frame, axis_transform),
        r matches Some(p) ==> -65535 <= p.0 <= 65535 && -65535 <= p.1 <= 65535,
{
    if finger1_valid(frame) {
        return Some(transform_position(axis_transform, frame.finger1));
    }
    if finger1_valid(prev_frame) {
        return Some(transform_position(axis_transform, prev_frame.finger1));
    }
    None
}

/// Finger 2's transformed position with previous-frame fallback.
pub fn get_finger2_position(
    frame: CoordinateFrame,
    prev_frame: CoordinateFrame,
    axis_transform: TrackpadAxisTransform,
) -> (r: Option<(i32, i32)>)
    ensures
        r == finger2_position_spec(frame, prev_frame, axis_transform),
        r matches Some(p) ==> -65535 <= p.0 <= 65535 && -65535 <= p.1 <= 65535,
{
    if finger2_valid(frame) {
        return Some(transform_position(axis_transform, frame.finger2));
    }
    if finger2_valid(prev_frame) {
        return Some(transform_position(axis_transform, prev_frame.finger2));
    }
    None
}

/// Centroid and spread of two fingers.
#[derive(Clone, Copy, Debug, Default, PartialEq, Eq, Structural)]
pub struct TwoFingerMetrics {
    pub centroid_x: i32,
    pub centroid_y: i32,
    pub distance: i32,
}

/// Centroid (rounded toward zero) and Manhattan distance of two points.
pub open spec fn metrics_of(p1: (i32, i32), p2: (i32, i32)) -> TwoFingerMetrics {
    TwoFingerMetrics {
        centroid_x: arith::trunc_div(p1.0 + p2.0, 2) as i32,
        centroid_y: arith::trunc_div(p1.1 + p2.1, 2) as i32,
        distance: (arith::abs_int(p1.0 - p2.0) + arith::abs_int(p1.1 - p2.1)) as i32,
    }
}

/// Two-finger metrics when both fingers have a position.
pub open spec fn two_finger_metrics_spec(
    frame: CoordinateFrame,
    prev: CoordinateFrame,
    t: TrackpadAxisTransform,
) -> Option<TwoFingerMetrics> {
    match (finger1_position_spec(frame, prev, t), finger2_position_spec(frame, prev, t)) {
        (Some(p1), Some(p2)) => Some(metrics_of(p1, p2)),
        _ => None,
    }
}

/// Centroid and spread of the two fingers, if both have a position.
pub fn get_two_finger_metrics(
    frame: CoordinateFrame,
    prev_frame: CoordinateFrame,
    axis_transform: TrackpadAxisTransform,
) -> (r: Option<TwoFingerMetrics>)
    ensures
        r == two_finger_metrics_spec(frame, prev_frame, axis_transform),
        r matches Some(m) ==> -65535 <= m.centroid_x <= 65535 && -65535 <= m.centroid_y <= 65535
            && 0 <= m.distance <= 262140,
{
    let (f1x, f1y) = match get_finger1_position(frame, prev_frame, axis_transform) {
        Some(p) => p,
        None => {
            return None;
        },
    };
    let (f2x, f2y) = match get_finger2_position(frame, prev_frame, axis_transform) {
        Some(p) => p,
        None => {
            return None;
        },
    };
    Some(
        TwoFingerMetrics {
            centroid_x: (f1x + f2x) / 2,
            centroid_y: (f1y + f2y) / 2,
            distance: abs_i32(sat_sub_i32(f1x, f2x)) + abs_i32(sat_sub_i32(f1y, f2y)),
        },
    )
}

/// Whether both fingers of a two-finger frame are confident and valid.
pub fn two_finger_positions_confident(frame: CoordinateFrame) -> (r: bool)
    ensures
        r == (finger_count_spec(frame) == 2 && finger1_valid_spec(frame) && finger2_valid_spec(
            frame,
        )),
{
    frame.finger_count() == 2 && finger1_valid(frame) && finger2_valid(frame)
}

/// The scroll step a two-finger frame's relative motion gives: only for
/// two-finger frames with movement, non-zero, and at least `min_move` on the
/// larger axis when `min_move` is positive.
pub open spec fn relative_scroll_spec(
    frame: CoordinateFrame,
    t: TrackpadAxisTransform,
    min_move: i16,
) -> Option<TrackpadScrollDelta> {
    if finger_count_spec(frame) != 2 || !movement_spec(frame) {
        None
    } else {
        let (tx, ty) = motion::transform_spec(t, frame.relative_x as int, frame.relative_y as int);
        let x = arith::sat_i16(tx);
        let y = arith::sat_i16(ty);
        let m = if min_move < 0 {
            0
        } else {
            min_move as int
        };
        let ax = arith::sat_i16(arith::abs_int(x as int));
        let ay = arith::sat_i16(arith::abs_int(y as int));
        let big = if ax >= ay {
            ax
        } else {
            ay
        };
        if x == 0 && y == 0 {
            None
        } else if m > 0 && big < m {
            None
        } else {
            Some(TrackpadScrollDelta { x, y })
        }
    }
}

/// The scroll step carried by a two-finger frame's relative motion.
pub fn two_finger_relative_scroll_delta(
    frame: CoordinateFrame,
    axis_transform: TrackpadAxisTransform,
    min_move: i16,
) -> (r: Option<TrackpadScrollDelta>)
    ensures
        r == relative_scroll_spec(frame, axis_transform, min_move),
{
    if frame.finger_count() != 2 || !frame.movement_detected() {
        return None;
    }
    let (x, y) = axis_transform.apply((frame.relative_x as i32, frame.relative_y as i32));
    let x = clamp_i32_to_i16(x);
    let y = clamp_i32_to_i16(y);
    let min_move: i16 = if min_move < 0 {
        0
    } else {
        min_move
    };
    if x == 0 && y == 0 {
        return None;
    }
    let ax = sat_abs_i16(x);
    let ay = sat_abs_i16(y);
    let big = if ax >= ay {
        ax
    } else {
        ay
    };
    if min_move > 0 && big < min_move {
        return None;
    }
    Some(TrackpadScrollDelta { x, y })
}

/// Cursor motion is read only from one-finger frames that report movement.
pub fn cursor_motion_detected(frame: CoordinateFrame) -> (r: bool)
    ensures
        r == (finger_count_spec(frame) == 1 && movement_spec(frame)),
{
    frame.finger_count() == 1 && frame.movement_detected()
}

/// The Manhattan distance `|x1 - x2| + |y1 - y2|` of two points.
pub open spec fn manhattan(p1: (i32, i32), p2: (i32, i32)) -> int {
    (if p1.0 >= p2.0 { p1.0 - p2.0 } else { p2.0 - p1.0 }) + (if p1.1 >= p2.1 { p1.1 - p2.1 } else { p2.1 - p1.1 })
}

/// Two-finger spread: the distance of two finger positions counts the
/// horizontal and the vertical spread alike (their sum), so it does not
/// change when the axes are swapped or the fingers exchanged, and the
/// centroid lies halfway between them (within the rounding of a half).
pub proof fn lemma_two_finger_distance(p1: (i32, i32), p2: (i32, i32))
    requires
        -65535 <= p1.0 <= 65535,
        -65535 <= p1.1 <= 65535,
        -65535 <= p2.0 <= 65535,
        -65535 <= p2.1 <= 65535,
    ensures
        metrics_of(p1, p2).distance == manhattan(p1, p2),
        metrics_of((p1.1, p1.0), (p2.1, p2.0)).distance == metrics_of(p1, p2).distance,
        metrics_of(p2, p1) == metrics_of(p1, p2),
        p1.0 + p2.0 - 1 <= 2 * metrics_of(p1, p2).centroid_x <= p1.0 + p2.0 + 1,
        p1.1 + p2.1 - 1 <= 2 * metrics_of(p1, p2).centroid_y <= p1.1 + p2.1 + 1,
{
    crate::iqs9151::motion::lemma_trunc_div(p1.0 + p2.0, 2);
    crate::iqs9151::motion::lemma_trunc_div(p1.1 + p2.1, 2);
}

/// The metrics a two-finger frame gives are those of its two finger
/// positions (each from this frame, or else the previous one): present
/// exactly when both fingers have a position, with their Manhattan distance.
pub proof fn lemma_two_finger_metrics_of_frame(frame: CoordinateFrame, prev: CoordinateFrame, t: TrackpadAxisTransform)
    ensures
        two_finger_metrics_spec(frame, prev, t) is Some <==> (finger1_position_spec(frame, prev, t) is Some && finger2_position_spec(frame, prev, t) is Some),
        two_finger_metrics_spec(frame, prev, t) matches Some(m) ==> m.distance == manhattan(
            finger1_position_spec(frame, prev, t).unwrap(),
            finger2_position_spec(frame, prev, t).unwrap(),
        ),
{
    if let (Some(p1), Some(p2)) = (finger1_position_spec(frame, prev, t), finger2_position_spec(frame, prev, t)) {
        lemma_two_finger_distance(p1, p2);
    }
}

} // verus!
