//! Fixed-point arithmetic for the animation engine.
//!
//! Every continuous quantity in this crate — seconds on the timeline,
//! normalized animation progress, opacity, scene coordinates — is held as a
//! signed 64-bit count of *ticks*, with [`SCALE`] ticks standing for 1.0.
//! The scale is chosen so that every constant appearing in the easing curves
//! (quarters, sixteenths, sixty-fourths, elevenths and the classic back
//! overshoot coefficient 1.70158) is exactly representable, which lets the
//! endpoint laws of the curves be proved as exact equalities.

use vstd::prelude::*;

verus! {

/// Ticks per unit: a time of `SCALE` ticks is one second, a progress of
/// `SCALE` ticks is 1.0. `2_200_000 = 2^6 * 5^5 * 11` is divisible by 4, 16,
/// 64, 11, 22 and 100_000, so all easing-curve constants are exact.
pub const SCALE: i64 = 2_200_000;

/// Bound on every scheduled time, duration and cursor position, in ticks
/// (about 455 thousand seconds). The bound exists only so that timeline
/// arithmetic provably stays inside `i64`.
pub const MAX_TICKS: i64 = 1_000_000_000_000;

/// Bound on scene coordinates, in ticks (about 90 thousand scene units).
/// Interpolated positions are saturated at this bound so that repeated
/// animation of an object provably never overflows.
pub const MAX_COORD: i64 = 200_000_000_000;

/// A point or displacement in the scene plane, in fixed-point ticks.
#[derive(Clone, Copy, Debug, PartialEq, Eq, Structural)]
pub struct Vec2Fx {
    pub x: i64,
    pub y: i64,
}

impl Vec2Fx {
    /// True when both components lie within `bound`.
    pub open spec fn in_range(self, bound: int) -> bool {
        -bound <= self.x <= bound && -bound <= self.y <= bound
    }

    pub fn new(x: i64, y: i64) -> (r: Vec2Fx)
        ensures
            r == (Vec2Fx { x, y }),
    {
        Vec2Fx { x, y }
    }
}

/// A nonnegative value divided by a positive one stays between `0` and the
/// quotient of its upper bound.
pub proof fn lemma_div_range(x: int, hi: int, d: int)
    requires
        0 <= x <= hi,
        1 <= d,
    ensures
        0 <= x / d <= hi / d,
{
    vstd::arithmetic::div_mod::lemma_div_pos_is_pos(x, d);
    vstd::arithmetic::div_mod::lemma_div_is_ordered(x, hi, d);
}

/// Division that rounds toward zero, matching the executable `/` on `i64`.
pub open spec fn div_trunc(n: int, d: int) -> int {
    if n >= 0 {
        n / d
    } else {
        -((-n) / d)
    }
}

/// Clamps a progress value into `[0, SCALE]`.
pub open spec fn clamp01_spec(t: int) -> int {
    if t < 0 {
        0
    } else if t > SCALE {
        SCALE as int
    } else {
        t
    }
}

/// Clamps a coordinate into `[-MAX_COORD, MAX_COORD]`.
pub open spec fn clamp_coord_spec(x: int) -> int {
    if x < -MAX_COORD {
        -MAX_COORD as int
    } else if x > MAX_COORD {
        MAX_COORD as int
    } else {
        x
    }
}

/// Linear interpolation from `a` to `b` by progress `p` (in ticks), before
/// saturation: `a + (b - a) * p / SCALE` with truncating division.
pub open spec fn lerp_spec(a: int, b: int, p: int) -> int {
    a + div_trunc((b - a) * p, SCALE as int)
}

/// Interpolated coordinate, saturated into the scene bound.
pub open spec fn lerp_coord_spec(a: int, b: int, p: int) -> int {
    clamp_coord_spec(lerp_spec(a, b, p))
}

pub open spec fn lerp_vec2_spec(a: Vec2Fx, b: Vec2Fx, p: int) -> Vec2Fx {
    Vec2Fx {
        x: lerp_coord_spec(a.x as int, b.x as int, p) as i64,
        y: lerp_coord_spec(a.y as int, b.y as int, p) as i64,
    }
}

/// Interpolates one coordinate and saturates it into the scene bound.
pub fn lerp_coord(a: i64, b: i64, p: i64) -> (r: i64)
    requires
        -MAX_COORD <= a <= MAX_COORD,
        -2 * MAX_COORD <= b <= 2 * MAX_COORD,
        -3 * SCALE <= p <= 3 * SCALE,
    ensures
        r == lerp_coord_spec(a as int, b as int, p as int),
        -MAX_COORD <= r <= MAX_COORD,
{
    let d = b - a;
    assert(-600_000_000_000 <= d <= 600_000_000_000);
    assert(d * p <= 3_960_000_000_000_000_000 && -3_960_000_000_000_000_000 <= d * p)
        by (nonlinear_arith)
        requires
            -600_000_000_000 <= d <= 600_000_000_000,
            -6_600_000 <= p <= 6_600_000,
    ;
    let n = d * p;
    let q = if n >= 0 {
        n / SCALE
    } else {
        -((-n) / SCALE)
    };
    let v = a + q;
    if v < -MAX_COORD {
        -MAX_COORD
    } else if v > MAX_COORD {
        MAX_COORD
    } else {
        v
    }
}

/// Interpolates a point and saturates both components into the scene bound.
pub fn lerp_vec2(a: Vec2Fx, b: Vec2Fx, p: i64) -> (r: Vec2Fx)
    requires
        a.in_range(MAX_COORD as int),
        b.in_range(2 * MAX_COORD as int),
        -3 * SCALE <= p <= 3 * SCALE,
    ensures
        r == lerp_vec2_spec(a, b, p as int),
        r.in_range(MAX_COORD as int),
{
    Vec2Fx { x: lerp_coord(a.x, b.x, p), y: lerp_coord(a.y, b.y, p) }
}

} // verus!
