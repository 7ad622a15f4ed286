//! Motion history and fling inertia for scrolling and, optionally, the cursor.
//!
//! While fingers move, recent non-zero deltas are kept in a small ring. When
//! the fingers lift, the ring seeds a fixed-point velocity, which then decays
//! step by step and is paid out as whole deltas.
use vstd::prelude::*;
use crate::iqs9151::arith::{self, abs_i32, div_trunc_i32, clamp_i32_to_i16, clamp_i64_to_i32, elapsed_ms, sat_add_i32, sat_mul_i32};
use crate::iqs9151::motion::TrackpadScrollDelta;

verus! {

/// Number of recent deltas the history keeps.
pub const SCROLL_INERTIA_HISTORY_SIZE: usize = 12;

/// One remembered delta and the millisecond it was seen.
#[derive(Clone, Copy, Debug, PartialEq, Eq, Structural)]
pub struct ScrollMotionSample {
    pub x: i16,
    pub y: i16,
    pub ms: u32,
}

/// Tuning of one inertia flavour (scroll or cursor).
#[derive(Clone, Copy, Debug, PartialEq, Eq, Structural)]
pub struct InertiaConfig {
    pub interval_ms: u32,
    pub max_duration_ms: u32,
    pub decay_num: i32,
    pub decay_den: i32,
    pub fp_shift: u8,
    pub start_threshold: i32,
    pub min_velocity: i32,
    pub recent_window_ms: u32,
    pub stale_gap_ms: u32,
    pub min_samples: usize,
    pub min_avg_speed: i32,
}

/// The ranges inertia arithmetic is defined for: 8 fraction bits, a step
/// interval of at most a second, a positive decay denominator and thresholds
/// that stay in range once scaled to fixed point.
pub open spec fn inertia_config_wf(c: InertiaConfig) -> bool {
    &&& c.fp_shift == 8
    &&& 1 <= c.interval_ms <= 1000
    &&& c.decay_den > 0
    &&& 0 <= c.start_threshold <= 0xffff
    &&& 0 <= c.min_velocity <= 0xffff
}

/// The scroll inertia tuning as a value.
pub open spec fn scroll_inertia_config_spec() -> InertiaConfig {
    InertiaConfig {
        interval_ms: 10,
        max_duration_ms: 700,
        decay_num: 980,
        decay_den: 1000,
        fp_shift: 8,
        start_threshold: 1,
        min_velocity: 1,
        recent_window_ms: 60,
        stale_gap_ms: 35,
        min_samples: 1,
        min_avg_speed: 4,
    }
}

/// Inertia tuning for two-finger scrolling.
pub fn scroll_inertia_config() -> (c: InertiaConfig)
    ensures
        inertia_config_wf(c),
        c == scroll_inertia_config_spec(),
{
    InertiaConfig {
        interval_ms: 10,
        max_duration_ms: 700,
        decay_num: 980,
        decay_den: 1000,
        fp_shift: 8,
        start_threshold: 1,
        min_velocity: 1,
        recent_window_ms: 60,
        stale_gap_ms: 35,
        min_samples: 1,
        min_avg_speed: 4,
    }
}

/// The cursor inertia tuning as a value.
pub open spec fn cursor_inertia_config_spec() -> InertiaConfig {
    InertiaConfig {
        interval_ms: 10,
        max_duration_ms: 3000,
        decay_num: 950,
        decay_den: 1000,
        fp_shift: 8,
        start_threshold: 2,
        min_velocity: 2,
        recent_window_ms: 60,
        stale_gap_ms: 35,
        min_samples: 2,
        min_avg_speed: 10,
    }
}

/// Inertia tuning for the cursor, when cursor inertia is enabled.
pub fn cursor_inertia_config() -> (c: InertiaConfig)
    ensures
        inertia_config_wf(c),
        c == cursor_inertia_config_spec(),
{
    InertiaConfig {
        interval_ms: 10,
        max_duration_ms: 3000,
        decay_num: 950,
        decay_den: 1000,
        fp_shift: 8,
        start_threshold: 2,
        min_velocity: 2,
        recent_window_ms: 60,
        stale_gap_ms: 35,
        min_samples: 2,
        min_avg_speed: 10,
    }
}

/// A ring of the most recent non-zero deltas.
#[derive(Clone, Copy, Debug)]
pub struct ScrollMotionHistory {
    pub samples: [ScrollMotionSample; SCROLL_INERTIA_HISTORY_SIZE],
    pub head: usize,
    pub count: usize,
}

/// The ring's index bounds.
pub open spec fn history_wf(h: ScrollMotionHistory) -> bool {
    h.head < 12 && h.count <= 12
}

/// Ring slot of the `i`-th newest sample.
pub open spec fn history_slot(head: int, i: int) -> int {
    (head + 12 - 1 - i) % 12
}

impl View for ScrollMotionHistory {
    /// The remembered samples, newest first.
    type V = Seq<ScrollMotionSample>;

    open spec fn view(&self) -> Seq<ScrollMotionSample> {
        Seq::new(self.count as nat, |i: int| self.samples@[history_slot(self.head as int, i)])
    }
}

/// The history after `push`: a non-zero delta becomes the newest sample and
/// the oldest falls out once twelve are kept; a zero delta is ignored.
pub open spec fn history_push_spec(
    s: Seq<ScrollMotionSample>,
    delta: TrackpadScrollDelta,
    now: u32,
) -> Seq<ScrollMotionSample> {
    if delta.x == 0 && delta.y == 0 {
        s
    } else {
        let n = if s.len() < 12 {
            s.len() + 1
        } else {
            12
        };
        seq![ScrollMotionSample { x: delta.x, y: delta.y, ms: now }].add(s).take(n as int)
    }
}


/// A release velocity in 1/256ths of a delta per inertia interval.
#[derive(Clone, Copy, Debug, PartialEq, Eq, Structural)]
pub struct ScrollInertiaSeed {
    pub vx_fp: i32,
    pub vy_fp: i32,
}

/// Index of the first sample from `i` on (newest first) that is older than
/// `window` milliseconds at `now`, or the end of the history: the samples
/// before it are the recent ones.
pub open spec fn recent_from(s: Seq<ScrollMotionSample>, now: u32, window: u32, i: int) -> int
    decreases s.len() - i,
{
    if i < 0 || i >= s.len() || arith::elapsed_spec(now, s[i].ms) > window {
        i
    } else {
        recent_from(s, now, window, i + 1)
    }
}

/// Sum of the `x` deltas of the first `n` samples.
pub open spec fn sum_x(s: Seq<ScrollMotionSample>, n: int) -> int
    decreases n,
{
    if n <= 0 {
        0
    } else {
        sum_x(s, n - 1) + s[n - 1].x
    }
}

/// Sum of the `y` deltas of the first `n` samples.
pub open spec fn sum_y(s: Seq<ScrollMotionSample>, n: int) -> int
    decreases n,
{
    if n <= 0 {
        0
    } else {
        sum_y(s, n - 1) + s[n - 1].y
    }
}

/// Whether a sample moves the same way as the dominant total on its axis.
pub open spec fn sample_agrees(sample: ScrollMotionSample, dominant_is_x: bool, dominant: int) -> bool {
    let v: int = if dominant_is_x {
        sample.x as int
    } else {
        sample.y as int
    };
    (v > 0 && dominant > 0) || (v < 0 && dominant < 0)
}

/// How many of the first `n` samples agree with the dominant direction.
pub open spec fn agreeing_count(s: Seq<ScrollMotionSample>, n: int, dominant_is_x: bool, dominant: int) -> int
    decreases n,
{
    if n <= 0 {
        0
    } else {
        agreeing_count(s, n - 1, dominant_is_x, dominant) + if sample_agrees(s[n - 1], dominant_is_x, dominant) {
            1int
        } else {
            0int
        }
    }
}

/// The release velocity the history `s` (newest first) gives at `now`, if any:
/// enough samples inside the recent window, the newest not stale, a non-zero
/// total whose dominant direction enough samples agree with, and an average
/// speed over the window's span (at least one interval) of at least the
/// configured minimum. The velocity is the total per interval, in 1/256ths.
pub open spec fn seed_spec(s: Seq<ScrollMotionSample>, now: u32, c: InertiaConfig) -> Option<ScrollInertiaSeed> {
    let n = recent_from(s, now, c.recent_window_ms, 0);
    if n < c.min_samples || n == 0 {
        None
    } else if arith::elapsed_spec(now, s[0].ms) > c.stale_gap_ms {
        None
    } else {
        let tx = sum_x(s, n);
        let ty = sum_y(s, n);
        if tx == 0 && ty == 0 {
            None
        } else {
            let dominant_is_x = arith::abs_int(tx) >= arith::abs_int(ty);
            let dominant = if dominant_is_x {
                tx
            } else {
                ty
            };
            if agreeing_count(s, n, dominant_is_x, dominant) < c.min_samples {
                None
            } else {
                let span0 = arith::elapsed_spec(s[0].ms, s[n - 1].ms);
                let span: u32 = if span0 < c.interval_ms {
                    c.interval_ms
                } else {
                    span0
                };
                let avg = arith::trunc_quot(
                    (arith::abs_int(tx) + arith::abs_int(ty)) * c.interval_ms,
                    (span as i32) as int,
                );
                if avg < c.min_avg_speed {
                    None
                } else {
                    Some(ScrollInertiaSeed {
                        vx_fp: arith::sat_i32(arith::trunc_div(tx * c.interval_ms * 256, span as int)),
                        vy_fp: arith::sat_i32(arith::trunc_div(ty * c.interval_ms * 256, span as int)),
                    })
                }
            }
        }
    }
}

proof fn lemma_sum_bounds(s: Seq<ScrollMotionSample>, n: int)
    requires
        0 <= n,
    ensures
        -32768 * n <= sum_x(s, n) <= 32767 * n,
        -32768 * n <= sum_y(s, n) <= 32767 * n,
    decreases n,
{
    if n > 0 {
        lemma_sum_bounds(s, n - 1);
    }
}

proof fn lemma_agreeing_bound(s: Seq<ScrollMotionSample>, n: int, dominant_is_x: bool, dominant: int)
    requires
        0 <= n,
    ensures
        0 <= agreeing_count(s, n, dominant_is_x, dominant) <= n,
    decreases n,
{
    if n > 0 {
        lemma_agreeing_bound(s, n - 1, dominant_is_x, dominant);
    }
}

/// `x` scaled to 8 fraction bits by a left shift.
fn shl_fixed_point(x: i64, shift: u32) -> (r: i64)
    requires
        shift == 8,
        -0x10_0000_0000_0000 <= x <= 0x10_0000_0000_0000,
    ensures
        r == x * 256,
{
    assert((x << shift) == x * 256) by (bit_vector)
        requires
            shift == 8,
            -0x10_0000_0000_0000 <= x <= 0x10_0000_0000_0000,
    ;
    x << shift
}

/// The empty history value.
pub open spec fn history_new_spec() -> ScrollMotionHistory {
    ScrollMotionHistory {
        samples: [ScrollMotionSample { x: 0, y: 0, ms: 0 }; SCROLL_INERTIA_HISTORY_SIZE],
        head: 0,
        count: 0,
    }
}

/// The empty history is well formed and holds no sample.
pub proof fn lemma_history_new_empty()
    ensures
        history_wf(history_new_spec()),
        history_new_spec()@ == Seq::<ScrollMotionSample>::empty(),
{
    assert(history_new_spec()@ =~= Seq::<ScrollMotionSample>::empty());
}

/// The history value after `push`.
pub open spec fn history_push_value(h: ScrollMotionHistory, delta: TrackpadScrollDelta, now: u32) -> ScrollMotionHistory {
    if delta.x == 0 && delta.y == 0 {
        h
    } else {
        ScrollMotionHistory {
            samples: vstd::array::spec_array_update(
                h.samples,
                h.head as int,
                ScrollMotionSample { x: delta.x, y: delta.y, ms: now },
            ),
            head: ((h.head + 1) % 12) as usize,
            count: if h.count < 12 {
                (h.count + 1) as usize
            } else {
                h.count
            },
        }
    }
}

impl ScrollMotionHistory {
    /// An empty history.
    pub fn new() -> (h: Self)
        ensures
            h == history_new_spec(),
            history_wf(h),
            h@ == Seq::<ScrollMotionSample>::empty(),
    {
        let empty = ScrollMotionSample { x: 0, y: 0, ms: 0 };
        let h = ScrollMotionHistory { samples: [empty; SCROLL_INERTIA_HISTORY_SIZE], head: 0, count: 0 };
        assert(h@ =~= Seq::<ScrollMotionSample>::empty());
        h
    }

    /// Forget every sample.
    pub fn reset(&mut self)
        ensures
            *final(self) == history_new_spec(),
            history_wf(*final(self)),
            final(self)@ == Seq::<ScrollMotionSample>::empty(),
    {
        *self = Self::new();
    }

    /// Remember a non-zero delta seen at `now_ms`.
    pub fn push(&mut self, delta: TrackpadScrollDelta, now_ms: u32)
        requires
            history_wf(*old(self)),
        ensures
            *final(self) == history_push_value(*old(self), delta, now_ms),
            history_wf(*final(self)),
            final(self)@ == history_push_spec(old(self)@, delta, now_ms),
    {
        if delta.x == 0 && delta.y == 0 {
            return;
        }
        let ghost old_h = *self;
        let sample = ScrollMotionSample { x: delta.x, y: delta.y, ms: now_ms };
        let head = self.head;
        self.samples[head] = sample;
        self.head = (head + 1) % SCROLL_INERTIA_HISTORY_SIZE;
        if self.count < SCROLL_INERTIA_HISTORY_SIZE {
            self.count = self.count + 1;
        }
        proof {
            let expect = history_push_spec(old_h@, delta, now_ms);
            assert forall|i: int| 0 <= i < self.count implies #[trigger] self@[i] == expect[i] by {
                if i == 0 {
                    assert(history_slot(self.head as int, 0) == head);
                } else {
                    assert(history_slot(self.head as int, i) == history_slot(head as int, i - 1));
                    assert(history_slot(head as int, i - 1) != head);
                }
            }
            assert(self@ =~= expect);
        }
    }

    /// The scroll release velocity at `now_ms`, if the history supports one.
    pub fn seed(self, now_ms: u32) -> (r: Option<ScrollInertiaSeed>)
        requires
            history_wf(self),
        ensures
            r == seed_spec(self@, now_ms, scroll_inertia_config_spec()),
    {
        self.seed_with(now_ms, scroll_inertia_config())
    }

    /// The release velocity under `config` at `now_ms`, if the history supports one.
    pub fn seed_with(self, now_ms: u32, config: InertiaConfig) -> (r: Option<ScrollInertiaSeed>)
        requires
            history_wf(self),
            inertia_config_wf(config),
        ensures
            r == seed_spec(self@, now_ms, config),
    {
        let ghost s = self@;
        let empty = ScrollMotionSample { x: 0, y: 0, ms: 0 };
        let mut recent = [empty; SCROLL_INERTIA_HISTORY_SIZE];
        let mut recent_count: usize = 0;
        let mut i: usize = 0;
        while i < self.count
            invariant
                history_wf(self),
                s == self@,
                i <= self.count,
                recent_count == i,
                recent_from(s, now_ms, config.recent_window_ms, 0) == recent_from(
                    s,
                    now_ms,
                    config.recent_window_ms,
                    i as int,
                ),
                forall|j: int| 0 <= j < i ==> recent@[j] == s[j],
            ensures
                recent_count <= self.count,
                recent_from(s, now_ms, config.recent_window_ms, 0) == recent_count as int,
                forall|j: int| 0 <= j < recent_count ==> recent@[j] == s[j],
            decreases self.count - i,
        {
            let idx = (self.head + SCROLL_INERTIA_HISTORY_SIZE - 1 - i) % SCROLL_INERTIA_HISTORY_SIZE;
            let sample = self.samples[idx];
            assert(sample == s[i as int]);
            if elapsed_ms(now_ms, sample.ms) > config.recent_window_ms {
                break;
            }
            recent[recent_count] = sample;
            recent_count = recent_count + 1;
            i = i + 1;
        }
        let ghost n = recent_count as int;
        if recent_count < config.min_samples {
            return None;
        }
        let latest = recent[0];
        if elapsed_ms(now_ms, latest.ms) > config.stale_gap_ms {
            return None;
        }
        let mut total_x: i32 = 0;
        let mut total_y: i32 = 0;
        let mut j: usize = 0;
        while j < recent_count
            invariant
                j <= recent_count,
                recent_count <= 12,
                total_x == sum_x(s, j as int),
                total_y == sum_y(s, j as int),
                forall|k: int| 0 <= k < recent_count ==> recent@[k] == s[k],
            decreases recent_count - j,
        {
            proof {
                lemma_sum_bounds(s, j as int);
            }
            let sample = recent[j];
            total_x = sat_add_i32(total_x, sample.x as i32);
            total_y = sat_add_i32(total_y, sample.y as i32);
            j = j + 1;
        }
        proof {
            lemma_sum_bounds(s, n);
        }
        if total_x == 0 && total_y == 0 {
            return None;
        }
        let dominant_total = if abs_i32(total_x) >= abs_i32(total_y) {
            total_x
        } else {
            total_y
        };
        let dominant_is_x = abs_i32(total_x) >= abs_i32(total_y);
        let mut consistent_count: usize = 0;
        let mut k: usize = 0;
        while k < recent_count
            invariant
                k <= recent_count,
                recent_count <= 12,
                consistent_count == agreeing_count(s, k as int, dominant_is_x, dominant_total as int),
                forall|m: int| 0 <= m < recent_count ==> recent@[m] == s[m],
            decreases recent_count - k,
        {
            proof {
                lemma_agreeing_bound(s, k as int, dominant_is_x, dominant_total as int);
            }
            let sample = recent[k];
            let v: i32 = if dominant_is_x {
                sample.x as i32
            } else {
                sample.y as i32
            };
            if (v > 0 && dominant_total > 0) || (v < 0 && dominant_total < 0) {
                consistent_count = consistent_count + 1;
            }
            k = k + 1;
        }
        if consistent_count < config.min_samples {
            return None;
        }
        let earliest = recent[recent_count - 1];
        let mut span_ms = elapsed_ms(latest.ms, earliest.ms);
        if span_ms < config.interval_ms {
            span_ms = config.interval_ms;
        }
        let speed_sum: i32 = abs_i32(total_x) + abs_i32(total_y);
        assert(speed_sum == arith::abs_int(total_x as int) + arith::abs_int(total_y as int));
        let divisor: i32 = span_ms as i32;
        assert(span_ms >= 1 ==> (span_ms as i32) != 0) by (bit_vector);
        let interval_i32: i32 = config.interval_ms as i32;
        assert(0 <= speed_sum * interval_i32 <= 786432 * 1000) by (nonlinear_arith)
            requires
                0 <= speed_sum <= 786432,
                1 <= interval_i32 <= 1000,
        ;
        let scaled_speed = sat_mul_i32(speed_sum, interval_i32);
        assert(scaled_speed == speed_sum * interval_i32);
        let avg_speed = div_trunc_i32(scaled_speed, divisor);
        if avg_speed < config.min_avg_speed {
            return None;
        }
        let interval = config.interval_ms as i64;
        let span = span_ms as i64;
        let shift = config.fp_shift as u32;
        assert(-393216 * 1000 <= (total_x as int) * (interval as int) <= 393216 * 1000) by (nonlinear_arith)
            requires
                -393216 <= total_x <= 393216,
                1 <= interval <= 1000,
        ;
        assert(-393216 * 1000 <= (total_y as int) * (interval as int) <= 393216 * 1000) by (nonlinear_arith)
            requires
                -393216 <= total_y <= 393216,
                1 <= interval <= 1000,
        ;
        let scaled_x = shl_fixed_point(total_x as i64 * interval, shift);
        let scaled_y = shl_fixed_point(total_y as i64 * interval, shift);
        let qx = scaled_x / span;
        let qy = scaled_y / span;
        Some(
            ScrollInertiaSeed {
                vx_fp: clamp_i64_to_i32(qx),
                vy_fp: clamp_i64_to_i32(qy),
            },
        )
    }
}


/// A running fling: fixed-point velocity and carry per axis, time spent and
/// the last step's millisecond.
#[derive(Clone, Copy, Debug, PartialEq, Eq, Structural)]
pub struct ScrollInertiaState {
    pub active: bool,
    pub vx_fp: i32,
    pub vy_fp: i32,
    pub accum_x_fp: i32,
    pub accum_y_fp: i32,
    pub elapsed_ms: u32,
    pub last_ms: u32,
}

/// The stopped fling.
pub open spec fn inertia_idle() -> ScrollInertiaState {
    ScrollInertiaState {
        active: false,
        vx_fp: 0,
        vy_fp: 0,
        accum_x_fp: 0,
        accum_y_fp: 0,
        elapsed_ms: 0,
        last_ms: 0,
    }
}

/// Saturating absolute value of an `i32`, as an integer.
pub open spec fn abs_sat(v: i32) -> int {
    arith::sat_i32(arith::abs_int(v as int)) as int
}

/// Starting a fling from `seed`: too slow on both axes stops instead.
pub open spec fn inertia_start_spec(seed: ScrollInertiaSeed, now: u32, c: InertiaConfig) -> ScrollInertiaState {
    let threshold = c.start_threshold * 256;
    if abs_sat(seed.vx_fp) < threshold && abs_sat(seed.vy_fp) < threshold {
        inertia_idle()
    } else {
        ScrollInertiaState {
            active: true,
            vx_fp: seed.vx_fp,
            vy_fp: seed.vy_fp,
            accum_x_fp: 0,
            accum_y_fp: 0,
            elapsed_ms: 0,
            last_ms: now,
        }
    }
}

/// One decay of a fixed-point velocity.
pub open spec fn decay_spec(v: i32, c: InertiaConfig) -> int {
    arith::trunc_div(arith::sat_i32(v * c.decay_num) as int, c.decay_den as int)
}

/// A fling step at `now`: nothing until an interval has passed since the last
/// step; then the velocity is added to the carry, decays, the whole deltas
/// (carry / 256, rounded down) are paid out and the fraction kept, and the
/// fling stops once its duration is reached or both velocities fall under
/// the minimum.
pub open spec fn inertia_step_spec(s: ScrollInertiaState, now: u32, c: InertiaConfig) -> (ScrollInertiaState, Option<TrackpadScrollDelta>) {
    if !s.active || arith::elapsed_spec(now, s.last_ms) < c.interval_ms {
        (s, None)
    } else {
        let ax = arith::sat_i32(s.accum_x_fp + s.vx_fp) as int;
        let ay = arith::sat_i32(s.accum_y_fp + s.vy_fp) as int;
        let vx = decay_spec(s.vx_fp, c) as i32;
        let vy = decay_spec(s.vy_fp, c) as i32;
        let el: u32 = if s.elapsed_ms + c.interval_ms > u32::MAX {
            u32::MAX
        } else {
            (s.elapsed_ms + c.interval_ms) as u32
        };
        let ox = ax / 256;
        let oy = ay / 256;
        let min_v = c.min_velocity * 256;
        let active = !(el >= c.max_duration_ms || (abs_sat(vx) < min_v && abs_sat(vy) < min_v));
        (
            ScrollInertiaState {
                active,
                vx_fp: vx,
                vy_fp: vy,
                accum_x_fp: (ax - ox * 256) as i32,
                accum_y_fp: (ay - oy * 256) as i32,
                elapsed_ms: el,
                last_ms: now,
            },
            if ox == 0 && oy == 0 {
                None
            } else {
                Some(TrackpadScrollDelta { x: arith::sat_i16(ox), y: arith::sat_i16(oy) })
            },
        )
    }
}

/// `x` shifted left by the 8 fraction bits.
fn shl_fixed_point_i32(x: i32, shift: u8) -> (r: i32)
    requires
        shift == 8,
        -0x80_0000 <= x <= 0x7f_ffff,
    ensures
        r == x * 256,
{
    assert((x << shift) == x * 256) by (bit_vector)
        requires
            shift == 8,
            -0x80_0000 <= x <= 0x7f_ffff,
    ;
    x << shift
}

/// Whole units of an 8-fraction-bit value, rounded down.
fn shr_fixed_point_i32(x: i32, shift: u8) -> (r: i32)
    requires
        shift == 8,
    ensures
        r == (x as int) / 256,
        -0x80_0000 <= r <= 0x7f_ffff,
{
    let q = x >> shift;
    assert(q * 256 <= x && x < q * 256 + 256 && -0x80_0000 <= q <= 0x7f_ffff) by (bit_vector)
        requires
            shift == 8,
            q == x >> shift,
    ;
    proof {
        vstd::arithmetic::div_mod::lemma_fundamental_div_mod_converse(x as int, 256, q as int, x - q * 256);
    }
    q
}

/// One decay step of a fixed-point velocity.
fn decay_velocity(v: i32, config: InertiaConfig) -> (r: i32)
    requires
        inertia_config_wf(config),
    ensures
        r as int == decay_spec(v, config),
{
    let scaled = sat_mul_i32(v, config.decay_num);
    proof {
        crate::iqs9151::motion::lemma_trunc_div(scaled as int, config.decay_den as int);
    }
    scaled / config.decay_den
}

impl ScrollInertiaState {
    /// A stopped fling.
    pub fn new() -> (s: Self)
        ensures
            s == inertia_idle(),
    {
        ScrollInertiaState {
            active: false,
            vx_fp: 0,
            vy_fp: 0,
            accum_x_fp: 0,
            accum_y_fp: 0,
            elapsed_ms: 0,
            last_ms: 0,
        }
    }

    /// Stop the fling.
    pub fn reset(&mut self)
        ensures
            *final(self) == inertia_idle(),
    {
        *self = Self::new();
    }

    /// Start a scroll fling from `seed` at `now_ms`.
    pub fn start(&mut self, seed: ScrollInertiaSeed, now_ms: u32)
        ensures
            *final(self) == inertia_start_spec(seed, now_ms, scroll_inertia_config_spec()),
    {
        self.start_with(seed, now_ms, scroll_inertia_config());
    }

    /// Start a fling under `config` from `seed` at `now_ms`.
    pub fn start_with(&mut self, seed: ScrollInertiaSeed, now_ms: u32, config: InertiaConfig)
        requires
            inertia_config_wf(config),
        ensures
            *final(self) == inertia_start_spec(seed, now_ms, config),
    {
        let start_threshold_fp = shl_fixed_point_i32(config.start_threshold, config.fp_shift);
        if abs_i32(seed.vx_fp) < start_threshold_fp && abs_i32(seed.vy_fp) < start_threshold_fp {
            self.reset();
            return;
        }
        self.active = true;
        self.vx_fp = seed.vx_fp;
        self.vy_fp = seed.vy_fp;
        self.accum_x_fp = 0;
        self.accum_y_fp = 0;
        self.elapsed_ms = 0;
        self.last_ms = now_ms;
    }

    /// A scroll fling step at `now_ms`.
    pub fn step(&mut self, now_ms: u32) -> (r: Option<TrackpadScrollDelta>)
        ensures
            (*final(self), r) == inertia_step_spec(*old(self), now_ms, scroll_inertia_config_spec()),
    {
        self.step_with(now_ms, scroll_inertia_config())
    }

    /// A fling step under `config` at `now_ms`.
    pub fn step_with(&mut self, now_ms: u32, config: InertiaConfig) -> (r: Option<TrackpadScrollDelta>)
        requires
            inertia_config_wf(config),
        ensures
            (*final(self), r) == inertia_step_spec(*old(self), now_ms, config),
    {
        if !self.active {
            return None;
        }
        let dt_ms = elapsed_ms(now_ms, self.last_ms);
        if dt_ms < config.interval_ms {
            return None;
        }
        self.accum_x_fp = sat_add_i32(self.accum_x_fp, self.vx_fp);
        self.accum_y_fp = sat_add_i32(self.accum_y_fp, self.vy_fp);
        self.vx_fp = decay_velocity(self.vx_fp, config);
        self.vy_fp = decay_velocity(self.vy_fp, config);
        self.last_ms = now_ms;
        self.elapsed_ms = self.elapsed_ms.saturating_add(config.interval_ms);
        let out_x = shr_fixed_point_i32(self.accum_x_fp, config.fp_shift);
        let out_y = shr_fixed_point_i32(self.accum_y_fp, config.fp_shift);
        self.accum_x_fp = self.accum_x_fp - shl_fixed_point_i32(out_x, config.fp_shift);
        self.accum_y_fp = self.accum_y_fp - shl_fixed_point_i32(out_y, config.fp_shift);
        let min_v_fp = shl_fixed_point_i32(config.min_velocity, config.fp_shift);
        if self.elapsed_ms >= config.max_duration_ms || (abs_i32(self.vx_fp) < min_v_fp && abs_i32(
            self.vy_fp,
        ) < min_v_fp) {
            self.active = false;
        }
        if out_x == 0 && out_y == 0 {
            None
        } else {
            Some(TrackpadScrollDelta { x: clamp_i32_to_i16(out_x), y: clamp_i32_to_i16(out_y) })
        }
    }
}


/// A fling never speeds up: with a decay factor of at most one, each step's
/// velocity is no larger in magnitude than the one before, on both axes.
pub proof fn lemma_inertia_velocity_never_grows(s: ScrollInertiaState, now: u32, c: InertiaConfig)
    requires
        inertia_config_wf(c),
        0 <= c.decay_num <= c.decay_den,
    ensures
        arith::abs_int(inertia_step_spec(s, now, c).0.vx_fp as int) <= arith::abs_int(s.vx_fp as int),
        arith::abs_int(inertia_step_spec(s, now, c).0.vy_fp as int) <= arith::abs_int(s.vy_fp as int),
{
    lemma_decay_shrinks(s.vx_fp, c);
    lemma_decay_shrinks(s.vy_fp, c);
}

proof fn lemma_decay_shrinks(v: i32, c: InertiaConfig)
    requires
        inertia_config_wf(c),
        0 <= c.decay_num <= c.decay_den,
    ensures
        arith::abs_int(decay_spec(v, c)) <= arith::abs_int(v as int),
{
    let d = c.decay_den as int;
    let m = arith::sat_i32(v * c.decay_num) as int;
    let q = decay_spec(v, c);
    crate::iqs9151::motion::lemma_trunc_div(m, d);
    assert(arith::abs_int(v * c.decay_num) <= arith::abs_int(v as int) * d) by (nonlinear_arith)
        requires
            0 <= c.decay_num <= d,
    ;
    assert(arith::abs_int(m) <= arith::abs_int(v as int) * d);
    assert(arith::abs_int(q * d) == arith::abs_int(q) * d) by (nonlinear_arith)
        requires
            d > 0,
    ;
    assert(arith::abs_int(q) <= arith::abs_int(v as int)) by (nonlinear_arith)
        requires
            d > 0,
            arith::abs_int(q) * d <= arith::abs_int(v as int) * d,
    ;
}

/// A due fling step pays out whole deltas and keeps only the fraction:
/// the carry afterwards lies in `[0, 256)` and, with the paid-out delta
/// times 256, makes up the carry plus velocity before (up to saturation).
/// A step that is not due changes nothing. A fling still running after a
/// step has spent less than its maximum duration.
pub proof fn lemma_inertia_step_carry(s: ScrollInertiaState, now: u32, c: InertiaConfig)
    requires
        inertia_config_wf(c),
    ensures
        ({
            let (s2, out) = inertia_step_spec(s, now, c);
            if s.active && arith::elapsed_spec(now, s.last_ms) >= c.interval_ms {
                let ox = arith::sat_i32(s.accum_x_fp + s.vx_fp) as int / 256;
                let oy = arith::sat_i32(s.accum_y_fp + s.vy_fp) as int / 256;
                &&& 0 <= s2.accum_x_fp < 256
                &&& 0 <= s2.accum_y_fp < 256
                &&& ox * 256 + s2.accum_x_fp == arith::sat_i32(s.accum_x_fp + s.vx_fp)
                &&& oy * 256 + s2.accum_y_fp == arith::sat_i32(s.accum_y_fp + s.vy_fp)
                &&& out == if ox == 0 && oy == 0 {
                    None
                } else {
                    Some(TrackpadScrollDelta { x: arith::sat_i16(ox), y: arith::sat_i16(oy) })
                }
                &&& s2.last_ms == now
                &&& (s2.active ==> s2.elapsed_ms < c.max_duration_ms)
            } else {
                s2 == s && out is None
            }
        }),
{
    let ax = arith::sat_i32(s.accum_x_fp + s.vx_fp) as int;
    let ay = arith::sat_i32(s.accum_y_fp + s.vy_fp) as int;
    vstd::arithmetic::div_mod::lemma_fundamental_div_mod(ax, 256);
    vstd::arithmetic::div_mod::lemma_fundamental_div_mod(ay, 256);
}

/// The release velocity points the way the fingers moved: on each axis it is
/// never of the opposite sign to the recent samples' total.
pub proof fn lemma_seed_follows_motion(s: Seq<ScrollMotionSample>, now: u32, c: InertiaConfig)
    requires
        inertia_config_wf(c),
        seed_spec(s, now, c) is Some,
    ensures
        ({
            let n = recent_from(s, now, c.recent_window_ms, 0);
            let seed = seed_spec(s, now, c)->0;
            &&& (sum_x(s, n) >= 0 ==> seed.vx_fp >= 0)
            &&& (sum_x(s, n) <= 0 ==> seed.vx_fp <= 0)
            &&& (sum_y(s, n) >= 0 ==> seed.vy_fp >= 0)
            &&& (sum_y(s, n) <= 0 ==> seed.vy_fp <= 0)
        }),
{
    let n = recent_from(s, now, c.recent_window_ms, 0);
    let tx = sum_x(s, n);
    let ty = sum_y(s, n);
    let span0 = arith::elapsed_spec(s[0].ms, s[n - 1].ms);
    let span: u32 = if span0 < c.interval_ms {
        c.interval_ms
    } else {
        span0
    };
    let i = c.interval_ms as int;
    assert(tx >= 0 ==> tx * i * 256 >= 0) by (nonlinear_arith)
        requires
            i >= 1,
    ;
    assert(tx <= 0 ==> tx * i * 256 <= 0) by (nonlinear_arith)
        requires
            i >= 1,
    ;
    assert(ty >= 0 ==> ty * i * 256 >= 0) by (nonlinear_arith)
        requires
            i >= 1,
    ;
    assert(ty <= 0 ==> ty * i * 256 <= 0) by (nonlinear_arith)
        requires
            i >= 1,
    ;
    crate::iqs9151::motion::lemma_trunc_div(tx * i * 256, span as int);
    crate::iqs9151::motion::lemma_trunc_div(ty * i * 256, span as int);
}

} // verus!
