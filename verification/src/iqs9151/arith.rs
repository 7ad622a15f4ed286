//! Saturating, clamping and fixed-point helpers shared by the trackpad logic.
use vstd::prelude::*;

verus! {

/// `x` limited to the closed range `[lo, hi]`.
pub open spec fn clamp_int(x: int, lo: int, hi: int) -> int {
    if x < lo {
        lo
    } else if x > hi {
        hi
    } else {
        x
    }
}

/// The `i32` that a saturating operation with mathematical result `x` yields.
pub open spec fn sat_i32(x: int) -> i32 {
    clamp_int(x, i32::MIN as int, i32::MAX as int) as i32
}

/// The `i16` that a saturating operation with mathematical result `x` yields.
pub open spec fn sat_i16(x: int) -> i16 {
    clamp_int(x, i16::MIN as int, i16::MAX as int) as i16
}

/// Absolute value of a mathematical integer.
pub open spec fn abs_int(x: int) -> int {
    if x < 0 {
        -x
    } else {
        x
    }
}

/// Integer division rounding toward zero, as Rust's `/` does on signed values.
pub open spec fn trunc_div(a: int, b: int) -> int {
    if a >= 0 {
        a / b
    } else {
        -((-a) / b)
    }
}

/// Integer division rounding toward zero for any non-zero divisor.
pub open spec fn trunc_quot(a: int, b: int) -> int {
    if b >= 0 {
        trunc_div(a, b)
    } else {
        -trunc_div(a, -b)
    }
}

/// Time elapsed from `then` to `now` on a wrapping 32-bit millisecond clock.
pub open spec fn elapsed_spec(now: u32, then: u32) -> u32 {
    if now >= then {
        (now - then) as u32
    } else {
        (now - then + 0x1_0000_0000) as u32
    }
}

/// Saturating absolute value (`i32::MIN` maps to `i32::MAX`).
pub fn abs_i32(value: i32) -> (r: i32)
    ensures
        r == sat_i32(abs_int(value as int)),
        r >= 0,
{
    if value < 0 {
        if value == i32::MIN {
            i32::MAX
        } else {
            -value
        }
    } else {
        value
    }
}

/// Rust's truncating `i32` division, for any divisor but zero and the one
/// overflowing quotient.
pub fn div_trunc_i32(a: i32, b: i32) -> (r: i32)
    requires
        b != 0,
        !(a == i32::MIN && b == -1),
    ensures
        r == trunc_quot(a as int, b as int),
{
    if b > 0 {
        a / b
    } else {
        let m: i64 = -(b as i64);
        let q: i64 = (a as i64) / m;
        assert(-0x8000_0000 <= q <= 0x8000_0000) by {
            if a >= 0 {
                vstd::arithmetic::div_mod::lemma_div_is_ordered_by_denominator(a as int, 1, m as int);
                vstd::arithmetic::div_mod::lemma_div_pos_is_pos(a as int, m as int);
            } else {
                vstd::arithmetic::div_mod::lemma_div_is_ordered_by_denominator(-(a as int), 1, m as int);
                vstd::arithmetic::div_mod::lemma_div_pos_is_pos(-(a as int), m as int);
            }
        }
        assert(q == trunc_div(a as int, m as int));
        assert(q != -0x8000_0000) by {
            if a < 0 && m >= 2 {
                vstd::arithmetic::div_mod::lemma_div_is_ordered_by_denominator(-(a as int), 2, m as int);
            }
        }
        (-q) as i32
    }
}

/// Saturating `i32` addition.
pub fn sat_add_i32(a: i32, b: i32) -> (r: i32)
    ensures
        r == sat_i32(a + b),
{
    let s: i64 = a as i64 + b as i64;
    clamp_i64_to_i32(s)
}

/// Saturating `i32` subtraction.
pub fn sat_sub_i32(a: i32, b: i32) -> (r: i32)
    ensures
        r == sat_i32(a - b),
{
    let s: i64 = a as i64 - b as i64;
    clamp_i64_to_i32(s)
}

/// Saturating `i32` multiplication.
pub fn sat_mul_i32(a: i32, b: i32) -> (r: i32)
    ensures
        r == sat_i32(a * b),
{
    assert(-0x4000_0000_0000_0000 <= (a as int) * (b as int) <= 0x4000_0000_0000_0000) by (
    nonlinear_arith)
        requires
            i32::MIN <= a <= i32::MAX,
            i32::MIN <= b <= i32::MAX,
    ;
    let s: i64 = (a as i64) * (b as i64);
    clamp_i64_to_i32(s)
}

/// Saturating `i16` addition.
pub fn sat_add_i16(a: i16, b: i16) -> (r: i16)
    ensures
        r == sat_i16(a + b),
{
    let s: i32 = a as i32 + b as i32;
    clamp_i32_to_i16(s)
}

/// Saturating `i16` negation (`i16::MIN` maps to `i16::MAX`).
pub fn sat_neg_i16(a: i16) -> (r: i16)
    ensures
        r == sat_i16(-a),
{
    let s: i32 = -(a as i32);
    clamp_i32_to_i16(s)
}

/// Saturating `i16` absolute value.
pub fn sat_abs_i16(a: i16) -> (r: i16)
    ensures
        r == sat_i16(abs_int(a as int)),
        r >= 0,
{
    if a < 0 {
        sat_neg_i16(a)
    } else {
        a
    }
}

/// Saturating `i16` multiplication.
pub fn sat_mul_i16(a: i16, b: i16) -> (r: i16)
    ensures
        r == sat_i16(a * b),
{
    assert(-0x4000_0000 <= (a as int) * (b as int) <= 0x4000_0000) by (nonlinear_arith)
        requires
            i16::MIN <= a <= i16::MAX,
            i16::MIN <= b <= i16::MAX,
    ;
    let s: i32 = (a as i32) * (b as i32);
    clamp_i32_to_i16(s)
}

/// Time elapsed from `then` to `now` on a wrapping millisecond clock.
pub fn elapsed_ms(now: u32, then: u32) -> (r: u32)
    ensures
        r == elapsed_spec(now, then),
{
    if now >= then {
        now - then
    } else {
        (u32::MAX - then) + now + 1
    }
}

/// Clamp an `i32` into the `i16` range.
pub fn clamp_i32_to_i16(value: i32) -> (r: i16)
    ensures
        r as int == clamp_int(value as int, i16::MIN as int, i16::MAX as int),
        r == sat_i16(value as int),
{
    if value < i16::MIN as i32 {
        i16::MIN
    } else if value > i16::MAX as i32 {
        i16::MAX
    } else {
        value as i16
    }
}

/// Clamp an `i64` into the `i32` range.
pub fn clamp_i64_to_i32(value: i64) -> (r: i32)
    ensures
        r as int == clamp_int(value as int, i32::MIN as int, i32::MAX as int),
        r == sat_i32(value as int),
{
    if value < i32::MIN as i64 {
        i32::MIN
    } else if value > i32::MAX as i64 {
        i32::MAX
    } else {
        value as i32
    }
}

/// Clamp an `i64` into the `i16` range.
pub fn clamp_i64_to_i16(value: i64) -> (r: i16)
    ensures
        r as int == clamp_int(value as int, i16::MIN as int, i16::MAX as int),
{
    if value < i16::MIN as i64 {
        i16::MIN
    } else if value > i16::MAX as i64 {
        i16::MAX
    } else {
        value as i16
    }
}

/// Clamp an `i16` into the `i8` range of a HID mouse report field.
pub fn clamp_i16_to_i8(value: i16) -> (r: i8)
    ensures
        r as int == clamp_int(value as int, i8::MIN as int, i8::MAX as int),
{
    if value < i8::MIN as i16 {
        i8::MIN
    } else if value > i8::MAX as i16 {
        i8::MAX
    } else {
        value as i8
    }
}

/// Largest cursor delta kept in a coalesced pending motion.
pub const MAX_PENDING_MOTION: i16 = 36;

/// Largest per-report scroll step used by default.
pub const DEFAULT_SCROLL_MAX_STEP: i16 = 2;

/// Cap a cursor delta to `[-MAX_PENDING_MOTION, MAX_PENDING_MOTION]`.
pub fn clamp_pending_motion(value: i16) -> (r: i16)
    ensures
        r as int == clamp_int(value as int, -36, 36),
{
    if value < -MAX_PENDING_MOTION {
        -MAX_PENDING_MOTION
    } else if value > MAX_PENDING_MOTION {
        MAX_PENDING_MOTION
    } else {
        value
    }
}

/// Cap a scroll delta to `[-DEFAULT_SCROLL_MAX_STEP, DEFAULT_SCROLL_MAX_STEP]`.
pub fn clamp_pending_scroll(value: i16) -> (r: i16)
    ensures
        r as int == clamp_int(value as int, -2, 2),
{
    if value < -DEFAULT_SCROLL_MAX_STEP {
        -DEFAULT_SCROLL_MAX_STEP
    } else if value > DEFAULT_SCROLL_MAX_STEP {
        DEFAULT_SCROLL_MAX_STEP
    } else {
        value
    }
}

/// The step bound actually used for a configured `max_step` (non-positive means 1).
pub open spec fn effective_max_step(max_step: int) -> int {
    if max_step <= 0 {
        1
    } else {
        max_step
    }
}

/// Cap a scroll step to `[-m, m]` where `m` is the effective step bound.
pub fn clamp_scroll_step(value: i16, max_step: i16) -> (r: i16)
    ensures
        r as int == clamp_int(
            value as int,
            -effective_max_step(max_step as int),
            effective_max_step(max_step as int),
        ),
{
    let max_step: i16 = if max_step <= 0 {
        1
    } else {
        max_step
    };
    if value < -max_step {
        -max_step
    } else if value > max_step {
        max_step
    } else {
        value
    }
}

} // verus!
