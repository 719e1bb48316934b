//! Easing curves for smooth animations.
//!
//! Each variant is a pure closed-form remapping of normalized time, evaluated
//! in fixed-point ticks (see [`crate::fixed::SCALE`]). The input is clamped to
//! `[0, SCALE]` before evaluation. The sinusoidal and exponential curves are
//! evaluated with truncated power series whose coefficients are exact at the
//! endpoints, so every curve provably starts at `0` and ends at `SCALE`
//! exactly (see [`lemma_easing_endpoints`]). The back and bounce curves
//! intentionally overshoot in the interior; their endpoint values are still
//! exact.

use vstd::prelude::*;
use crate::fixed::SCALE;
use crate::fixed::clamp01_spec;
use crate::fixed::div_trunc;
use crate::fixed::lemma_div_range;

verus! {

/// `pi * SCALE`, rounded to the nearest tick.
pub const PI_TICKS: i64 = 6_911_504;

/// `ln(2) * SCALE`, rounded to the nearest tick.
pub const LN2_TICKS: i64 = 1_524_924;

/// The classic back-overshoot coefficient `1.70158 * SCALE` (exact).
pub const BACK_C1: i64 = 3_743_476;

/// `BACK_C1 + SCALE`, the cubic coefficient of the back curve.
pub const BACK_C3: i64 = BACK_C1 + SCALE;

/// Bounce coefficient `7.5625 * SCALE = 121 * SCALE / 16` (exact).
pub const BOUNCE_N1: i64 = 16_637_500;

/// First bounce boundary, `SCALE / 2.75` (exact).
pub const BOUNCE_T1: i64 = 800_000;

/// Second bounce boundary, `2 * SCALE / 2.75` (exact).
pub const BOUNCE_T2: i64 = 1_600_000;

/// Third bounce boundary, `2.5 * SCALE / 2.75` (exact).
pub const BOUNCE_T3: i64 = 2_000_000;

/// Offset of the second bounce arc, `1.5 * SCALE / 2.75` (exact).
pub const BOUNCE_M1: i64 = 1_200_000;

/// Offset of the third bounce arc, `2.25 * SCALE / 2.75` (exact).
pub const BOUNCE_M2: i64 = 1_800_000;

/// Offset of the last bounce arc, `2.625 * SCALE / 2.75` (exact).
pub const BOUNCE_M3: i64 = 2_100_000;

/// Height of the second bounce arc, `0.75 * SCALE` (exact).
pub const BOUNCE_H1: i64 = 1_650_000;

/// Height of the third bounce arc, `0.9375 * SCALE` (exact).
pub const BOUNCE_H2: i64 = 2_062_500;

/// Height of the last bounce arc, `0.984375 * SCALE` (exact).
pub const BOUNCE_H3: i64 = 2_165_625;

/// Easing functions for smooth animations.
#[derive(Clone, Copy, Debug, PartialEq, Eq, Structural)]
pub enum Easing {
    /// Constant speed.
    Linear,
    /// Smooth start and end (the default).
    Smooth,
    /// Accelerate from zero.
    EaseInQuad,
    /// Decelerate to zero.
    EaseOutQuad,
    /// Accelerate then decelerate.
    EaseInOutQuad,
    /// Stronger acceleration.
    EaseInCubic,
    /// Stronger deceleration.
    EaseOutCubic,
    /// Stronger acceleration and deceleration.
    EaseInOutCubic,
    /// Sinusoidal ease in and out.
    EaseInOutSine,
    /// Exponential ease in.
    EaseInExpo,
    /// Exponential ease out.
    EaseOutExpo,
    /// Overshoot then settle.
    EaseOutBack,
    /// Bounce at the end.
    EaseOutBounce,
}

/// Smoothstep (Hermite interpolation): `t^2 * (3 - 2t)`.
pub open spec fn smooth_spec(t: int) -> int {
    (t * t / (SCALE as int)) * (3 * (SCALE as int) - 2 * t) / (SCALE as int)
}

/// Quadratic ease in: `t^2`.
pub open spec fn quad_in_spec(t: int) -> int {
    t * t / (SCALE as int)
}

/// Quadratic ease out: `1 - (1 - t)^2`.
pub open spec fn quad_out_spec(t: int) -> int {
    (SCALE as int) - (SCALE - t) * (SCALE - t) / (SCALE as int)
}

/// Quadratic ease in/out: `2t^2` then `1 - (2 - 2t)^2 / 2`.
pub open spec fn quad_in_out_spec(t: int) -> int {
    if t < SCALE as int / 2 {
        2 * t * t / (SCALE as int)
    } else {
        (SCALE as int) - (2 * (SCALE - t)) * (2 * (SCALE - t)) / (2 * (SCALE as int))
    }
}

/// Cubic ease in: `t^3`.
pub open spec fn cubic_in_spec(t: int) -> int {
    (t * t / (SCALE as int)) * t / (SCALE as int)
}

/// Cubic ease out: `1 - (1 - t)^3`.
pub open spec fn cubic_out_spec(t: int) -> int {
    (SCALE as int) - ((SCALE - t) * (SCALE - t) / (SCALE as int)) * (SCALE - t) / (SCALE as int)
}

/// Cubic ease in/out: `4t^3` then `1 - (2 - 2t)^3 / 2`.
pub open spec fn cubic_in_out_spec(t: int) -> int {
    if t < SCALE as int / 2 {
        4 * ((t * t / (SCALE as int)) * t / (SCALE as int))
    } else {
        (SCALE as int) - ((2 * (SCALE - t)) * (2 * (SCALE - t)) / (SCALE as int)) * (2 * (SCALE
            - t)) / (SCALE as int) / 2
    }
}

/// Truncated cosine series `cos(pi * x / SCALE) * SCALE` for `x` in
/// `[0, SCALE/2]`, exact at `x == 0`.
pub open spec fn cos_poly_spec(x: int) -> int {
    let th = (PI_TICKS as int) * x / (SCALE as int);
    let q = th * th / (SCALE as int);
    let q2 = q * q / (SCALE as int);
    let q3 = q2 * q / (SCALE as int);
    let q4 = q3 * q / (SCALE as int);
    (SCALE as int) - q / 2 + q2 / 24 - q3 / 720 + q4 / 40320
}

/// `cos(pi * t / SCALE) * SCALE` over `[0, SCALE]`, by quarter-wave symmetry;
/// exact at both endpoints.
pub open spec fn cos_pi_spec(t: int) -> int {
    if 2 * t <= SCALE as int {
        cos_poly_spec(t)
    } else {
        -cos_poly_spec(SCALE - t)
    }
}

/// Sinusoidal ease in/out: `(1 - cos(pi * t)) / 2`.
pub open spec fn sine_in_out_spec(t: int) -> int {
    div_trunc((SCALE as int) - cos_pi_spec(t), 2)
}

/// Truncated series for `2^(-f / SCALE) * SCALE`, `f` in `[0, SCALE)`;
/// exact at `f == 0`.
pub open spec fn exp2_frac_spec(f: int) -> int {
    let y = (LN2_TICKS as int) * f / (SCALE as int);
    let y2 = y * y / (SCALE as int);
    let y3 = y2 * y / (SCALE as int);
    let y4 = y3 * y / (SCALE as int);
    let y5 = y4 * y / (SCALE as int);
    let y6 = y5 * y / (SCALE as int);
    (SCALE as int) - y + y2 / 2 - y3 / 6 + y4 / 24 - y5 / 120 + y6 / 720
}

/// `2^k` for the small exponents produced by the exponential curves.
pub open spec fn pow2_small_spec(k: int) -> int {
    if k <= 0 {
        1
    } else if k == 1 {
        2
    } else if k == 2 {
        4
    } else if k == 3 {
        8
    } else if k == 4 {
        16
    } else if k == 5 {
        32
    } else if k == 6 {
        64
    } else if k == 7 {
        128
    } else if k == 8 {
        256
    } else if k == 9 {
        512
    } else {
        1024
    }
}

/// `2^(-u / SCALE) * SCALE` for `u` in `[0, 10 * SCALE]`; exact at `u == 0`.
pub open spec fn exp2_neg_spec(u: int) -> int {
    exp2_frac_spec(u % (SCALE as int)) / pow2_small_spec(u / (SCALE as int))
}

/// Exponential ease in: `0` at `t == 0`, else `2^(10t - 10)`.
pub open spec fn expo_in_spec(t: int) -> int {
    if t == 0 {
        0
    } else {
        exp2_neg_spec(10 * ((SCALE as int) - t))
    }
}

/// Exponential ease out: `1` at `t == 1`, else `1 - 2^(-10t)`.
pub open spec fn expo_out_spec(t: int) -> int {
    if t == SCALE as int {
        SCALE as int
    } else {
        (SCALE as int) - exp2_neg_spec(10 * t)
    }
}

/// Back (overshoot) ease out: `1 + c3 * (t - 1)^3 + c1 * (t - 1)^2`.
pub open spec fn back_out_spec(t: int) -> int {
    let m = (SCALE as int) - t;
    let msq = m * m / (SCALE as int);
    let mcu = msq * m / (SCALE as int);
    (SCALE as int) + (BACK_C1 as int) * msq / (SCALE as int) - (BACK_C3 as int) * mcu / (
    SCALE as int)
}

/// Bounce ease out: four parabolic arcs of stiffness `BOUNCE_N1`.
pub open spec fn bounce_out_spec(t: int) -> int {
    if t < BOUNCE_T1 as int {
        ((BOUNCE_N1 as int) * t / (SCALE as int)) * t / (SCALE as int)
    } else if t < BOUNCE_T2 as int {
        let m = t - BOUNCE_M1;
        (BOUNCE_N1 as int) * (m * m) / (SCALE as int) / (SCALE as int) + BOUNCE_H1
    } else if t < BOUNCE_T3 as int {
        let m = t - BOUNCE_M2;
        (BOUNCE_N1 as int) * (m * m) / (SCALE as int) / (SCALE as int) + BOUNCE_H2
    } else {
        let m = t - BOUNCE_M3;
        (BOUNCE_N1 as int) * (m * m) / (SCALE as int) / (SCALE as int) + BOUNCE_H3
    }
}

/// The curve of each variant, over an already-clamped `t` in `[0, SCALE]`.
pub open spec fn ease_spec(e: Easing, t: int) -> int {
    match e {
        Easing::Linear => t,
        Easing::Smooth => smooth_spec(t),
        Easing::EaseInQuad => quad_in_spec(t),
        Easing::EaseOutQuad => quad_out_spec(t),
        Easing::EaseInOutQuad => quad_in_out_spec(t),
        Easing::EaseInCubic => cubic_in_spec(t),
        Easing::EaseOutCubic => cubic_out_spec(t),
        Easing::EaseInOutCubic => cubic_in_out_spec(t),
        Easing::EaseInOutSine => sine_in_out_spec(t),
        Easing::EaseInExpo => expo_in_spec(t),
        Easing::EaseOutExpo => expo_out_spec(t),
        Easing::EaseOutBack => back_out_spec(t),
        Easing::EaseOutBounce => bounce_out_spec(t),
    }
}

impl Easing {
    /// Apply the easing function to a linear time value `t` (in ticks,
    /// `0` to `SCALE`); values outside that range are clamped first.
    pub fn apply(&self, t: i64) -> (r: i64)
        ensures
            r == ease_spec(*self, clamp01_spec(t as int)),
            -2 * SCALE <= r <= 3 * SCALE,
    {
        let t = if t < 0 {
            0
        } else if t > SCALE {
            SCALE
        } else {
            t
        };
        match self {
            Easing::Linear => t,
            Easing::Smooth => smooth(t),
            Easing::EaseInQuad => {
                assert(0 <= t * t <= 4_840_000_000_000) by (nonlinear_arith)
                    requires
                        0 <= t <= 2_200_000,
                ;
                proof {
                    lemma_div_range(t * t, 4_840_000_000_000, SCALE as int);
                }
                t * t / SCALE
            },
            Easing::EaseOutQuad => {
                let m = SCALE - t;
                assert(0 <= m * m <= 4_840_000_000_000) by (nonlinear_arith)
                    requires
                        0 <= m <= 2_200_000,
                ;
                proof {
                    lemma_div_range(m * m, 4_840_000_000_000, SCALE as int);
                }
                SCALE - m * m / SCALE
            },
            Easing::EaseInOutQuad => {
                if t < SCALE / 2 {
                    assert(0 <= (2 * t) * t <= 2_420_000_000_000) by (nonlinear_arith)
                        requires
                            0 <= t <= 1_100_000,
                    ;
                    proof {
                        lemma_div_range((2 * t) * t, 2_420_000_000_000, SCALE as int);
                    }
                    2 * t * t / SCALE
                } else {
                    let u = 2 * (SCALE - t);
                    assert(0 <= u * u <= 4_840_000_000_000) by (nonlinear_arith)
                        requires
                            0 <= u <= 2_200_000,
                    ;
                    proof {
                        lemma_div_range(u * u, 4_840_000_000_000, 2 * SCALE as int);
                    }
                    SCALE - u * u / (2 * SCALE)
                }
            },
            Easing::EaseInCubic => cubic_in(t),
            Easing::EaseOutCubic => {
                let m = SCALE - t;
                let c = cubic_in_part(m);
                SCALE - c
            },
            Easing::EaseInOutCubic => {
                if t < SCALE / 2 {
                    let c = cubic_in_part(t);
                    proof {
                        let a = (t as int) * (t as int) / (SCALE as int);
                        assert(0 <= (t as int) * (t as int) <= 1_210_000_000_000)
                            by (nonlinear_arith)
                            requires
                                0 <= t <= 1_100_000,
                        ;
                        lemma_div_range((t as int) * (t as int), 1_210_000_000_000, SCALE as int);
                        assert(0 <= a * (t as int) <= 605_000_000_000) by (nonlinear_arith)
                            requires
                                0 <= a <= 550_000,
                                0 <= t <= 1_100_000,
                        ;
                        lemma_div_range(a * (t as int), 605_000_000_000, SCALE as int);
                    }
                    4 * c
                } else {
                    let u = 2 * (SCALE - t);
                    let c = cubic_in_part(u);
                    SCALE - c / 2
                }
            },
            Easing::EaseInOutSine => {
                let c = cos_pi(t);
                let n = SCALE - c;
                if n >= 0 {
                    n / 2
                } else {
                    -((-n) / 2)
                }
            },
            Easing::EaseInExpo => {
                if t == 0 {
                    0
                } else {
                    exp2_neg(10 * (SCALE - t))
                }
            },
            Easing::EaseOutExpo => {
                if t == SCALE {
                    SCALE
                } else {
                    SCALE - exp2_neg(10 * t)
                }
            },
            Easing::EaseOutBack => back_out(t),
            Easing::EaseOutBounce => ease_out_bounce(t),
        }
    }
}

/// Manim-style smooth function (S-curve), by smoothstep.
fn smooth(t: i64) -> (r: i64)
    requires
        0 <= t <= SCALE,
    ensures
        r == smooth_spec(t as int),
        0 <= r <= 3 * SCALE,
{
    assert(0 <= t * t <= 4_840_000_000_000) by (nonlinear_arith)
        requires
            0 <= t <= 2_200_000,
    ;
    proof {
        lemma_div_range(t * t, 4_840_000_000_000, SCALE as int);
    }
    let a = t * t / SCALE;
    let b = 3 * SCALE - 2 * t;
    assert(0 <= a * b <= 14_520_000_000_000) by (nonlinear_arith)
        requires
            0 <= a <= 2_200_000,
            0 <= b <= 6_600_000,
    ;
    proof {
        lemma_div_range(a * b, 14_520_000_000_000, SCALE as int);
    }
    a * b / SCALE
}

/// `t^3 / SCALE^2` for `t` in `[0, SCALE]`; shared by the cubic curves.
fn cubic_in_part(t: i64) -> (r: i64)
    requires
        0 <= t <= SCALE,
    ensures
        r == (t * t / (SCALE as int)) * t / (SCALE as int),
        0 <= r <= SCALE,
{
    assert(0 <= t * t <= 4_840_000_000_000) by (nonlinear_arith)
        requires
            0 <= t <= 2_200_000,
    ;
    proof {
        lemma_div_range(t * t, 4_840_000_000_000, SCALE as int);
    }
    let a = t * t / SCALE;
    assert(0 <= a * t <= 4_840_000_000_000) by (nonlinear_arith)
        requires
            0 <= a <= 2_200_000,
            0 <= t <= 2_200_000,
    ;
    proof {
        lemma_div_range(a * t, 4_840_000_000_000, SCALE as int);
    }
    a * t / SCALE
}

/// Cubic ease in.
fn cubic_in(t: i64) -> (r: i64)
    requires
        0 <= t <= SCALE,
    ensures
        r == cubic_in_spec(t as int),
        0 <= r <= SCALE,
{
    cubic_in_part(t)
}

/// Quarter-wave cosine series, `x` in `[0, SCALE/2]`.
fn cos_poly(x: i64) -> (r: i64)
    requires
        0 <= x <= SCALE / 2,
    ensures
        r == cos_poly_spec(x as int),
        -600_000 <= r <= 2_800_000,
{
    proof {
        lemma_div_range((PI_TICKS as int) * x, 7_602_654_400_000, SCALE as int);
    }
    let th = PI_TICKS * x / SCALE;
    assert(0 <= th * th <= 11_942_221_885_504) by (nonlinear_arith)
        requires
            0 <= th <= 3_455_752,
    ;
    proof {
        lemma_div_range(th * th, 11_942_221_885_504, SCALE as int);
    }
    let q = th * th / SCALE;
    assert(0 <= q * q <= 29_466_245_471_524) by (nonlinear_arith)
        requires
            0 <= q <= 5_428_282,
    ;
    proof {
        lemma_div_range(q * q, 29_466_245_471_524, SCALE as int);
    }
    let q2 = q * q / SCALE;
    assert(0 <= q2 * q <= 72_705_035_752_654) by (nonlinear_arith)
        requires
            0 <= q2 <= 13_393_747,
            0 <= q <= 5_428_282,
    ;
    proof {
        lemma_div_range(q2 * q, 72_705_035_752_654, SCALE as int);
    }
    let q3 = q2 * q / SCALE;
    assert(0 <= q3 * q <= 179_392_468_467_526) by (nonlinear_arith)
        requires
            0 <= q3 <= 33_047_743,
            0 <= q <= 5_428_282,
    ;
    proof {
        lemma_div_range(q3 * q, 179_392_468_467_526, SCALE as int);
    }
    let q4 = q3 * q / SCALE;
    SCALE - q / 2 + q2 / 24 - q3 / 720 + q4 / 40320
}

/// Fixed-point cosine of `pi * t / SCALE`, by quarter-wave symmetry.
fn cos_pi(t: i64) -> (r: i64)
    requires
        0 <= t <= SCALE,
    ensures
        r == cos_pi_spec(t as int),
        -2_800_000 <= r <= 2_800_000,
{
    if 2 * t <= SCALE {
        cos_poly(t)
    } else {
        let c = cos_poly(SCALE - t);
        -c
    }
}

/// Series for `2^(-f / SCALE) * SCALE`, `f` in `[0, SCALE)`.
fn exp2_frac(f: i64) -> (r: i64)
    requires
        0 <= f < SCALE,
    ensures
        r == exp2_frac_spec(f as int),
        0 <= r <= 2_800_000,
{
    proof {
        lemma_div_range((LN2_TICKS as int) * f, 3_354_831_275_076, SCALE as int);
    }
    let y = LN2_TICKS * f / SCALE;
    assert(0 <= y * y <= 2_325_393_205_776) by (nonlinear_arith)
        requires
            0 <= y <= 1_524_924,
    ;
    proof {
        lemma_div_range(y * y, 2_325_393_205_776, SCALE as int);
    }
    let y2 = y * y / SCALE;
    assert(0 <= y2 * y <= 1_611_838_568_304) by (nonlinear_arith)
        requires
            0 <= y2 <= 1_056_996,
            0 <= y <= 1_524_924,
    ;
    proof {
        lemma_div_range(y2 * y, 1_611_838_568_304, SCALE as int);
    }
    let y3 = y2 * y / SCALE;
    assert(0 <= y3 * y <= 1_117_240_143_372) by (nonlinear_arith)
        requires
            0 <= y3 <= 732_653,
            0 <= y <= 1_524_924,
    ;
    proof {
        lemma_div_range(y3 * y, 1_117_240_143_372, SCALE as int);
    }
    let y4 = y3 * y / SCALE;
    assert(0 <= y4 * y <= 774_411_304_464) by (nonlinear_arith)
        requires
            0 <= y4 <= 507_836,
            0 <= y <= 1_524_924,
    ;
    proof {
        lemma_div_range(y4 * y, 774_411_304_464, SCALE as int);
    }
    let y5 = y4 * y / SCALE;
    assert(0 <= y5 * y <= 536_780_872_620) by (nonlinear_arith)
        requires
            0 <= y5 <= 352_005,
            0 <= y <= 1_524_924,
    ;
    proof {
        lemma_div_range(y5 * y, 536_780_872_620, SCALE as int);
    }
    let y6 = y5 * y / SCALE;
    SCALE - y + y2 / 2 - y3 / 6 + y4 / 24 - y5 / 120 + y6 / 720
}

/// `2^(-u / SCALE) * SCALE` for `u` in `[0, 10 * SCALE]`.
fn exp2_neg(u: i64) -> (r: i64)
    requires
        0 <= u <= 10 * SCALE,
    ensures
        r == exp2_neg_spec(u as int),
        0 <= r <= 2_800_000,
{
    let k = u / SCALE;
    let f = u % SCALE;
    let base = exp2_frac(f);
    let d = if k == 0 {
        1
    } else if k == 1 {
        2
    } else if k == 2 {
        4
    } else if k == 3 {
        8
    } else if k == 4 {
        16
    } else if k == 5 {
        32
    } else if k == 6 {
        64
    } else if k == 7 {
        128
    } else if k == 8 {
        256
    } else if k == 9 {
        512
    } else {
        1024
    };
    assert(d == pow2_small_spec(u as int / (SCALE as int)));
    proof {
        lemma_div_range(base as int, 2_800_000, d as int);
    }
    base / d
}

/// Back easing: settles to the endpoints exactly, overshooting in between.
fn back_out(t: i64) -> (r: i64)
    requires
        0 <= t <= SCALE,
    ensures
        r == back_out_spec(t as int),
        -2 * SCALE <= r <= 3 * SCALE,
{
    let m = SCALE - t;
    assert(0 <= m * m <= 4_840_000_000_000) by (nonlinear_arith)
        requires
            0 <= m <= 2_200_000,
    ;
    proof {
        lemma_div_range(m * m, 4_840_000_000_000, SCALE as int);
    }
    let msq = m * m / SCALE;
    assert(0 <= msq * m <= 4_840_000_000_000) by (nonlinear_arith)
        requires
            0 <= msq <= 2_200_000,
            0 <= m <= 2_200_000,
    ;
    proof {
        lemma_div_range(msq * m, 4_840_000_000_000, SCALE as int);
        lemma_div_range((BACK_C1 as int) * msq, 8_235_647_200_000_000_000, SCALE as int);
        lemma_div_range((BACK_C3 as int) * (msq * m / (SCALE as int)), 13_075_647_200_000_000_000,
            SCALE as int);
    }
    let mcu = msq * m / SCALE;
    SCALE + BACK_C1 * msq / SCALE - BACK_C3 * mcu / SCALE
}

/// Bounce easing helper.
fn ease_out_bounce(t: i64) -> (r: i64)
    requires
        0 <= t <= SCALE,
    ensures
        r == bounce_out_spec(t as int),
        0 <= r <= 3 * SCALE,
{
    if t < BOUNCE_T1 {
        proof {
            lemma_div_range((BOUNCE_N1 as int) * t, 13_310_000_000_000, SCALE as int);
        }
        let a = BOUNCE_N1 * t / SCALE;
        assert(0 <= a * t <= 4_840_000_000_000) by (nonlinear_arith)
            requires
                0 <= a <= 6_050_000,
                0 <= t <= 800_000,
        ;
        proof {
            lemma_div_range(a * t, 4_840_000_000_000, SCALE as int);
        }
        a * t / SCALE
    } else if t < BOUNCE_T2 {
        let m = t - BOUNCE_M1;
        assert(0 <= m * m <= 160_000_000_000) by (nonlinear_arith)
            requires
                -400_000 <= m <= 400_000,
        ;
        proof {
            lemma_div_range((BOUNCE_N1 as int) * (m * m), 2_662_000_000_000_000_000, SCALE as int);
            lemma_div_range((BOUNCE_N1 as int) * (m * m) / (SCALE as int), 1_210_000_000_000,
                SCALE as int);
        }
        BOUNCE_N1 * (m * m) / SCALE / SCALE + BOUNCE_H1
    } else if t < BOUNCE_T3 {
        let m = t - BOUNCE_M2;
        assert(0 <= m * m <= 40_000_000_000) by (nonlinear_arith)
            requires
                -200_000 <= m <= 200_000,
        ;
        proof {
            lemma_div_range((BOUNCE_N1 as int) * (m * m), 665_500_000_000_000_000, SCALE as int);
            lemma_div_range((BOUNCE_N1 as int) * (m * m) / (SCALE as int), 302_500_000_000,
                SCALE as int);
        }
        BOUNCE_N1 * (m * m) / SCALE / SCALE + BOUNCE_H2
    } else {
        let m = t - BOUNCE_M3;
        assert(0 <= m * m <= 10_000_000_000) by (nonlinear_arith)
            requires
                -100_000 <= m <= 100_000,
        ;
        proof {
            lemma_div_range((BOUNCE_N1 as int) * (m * m), 166_375_000_000_000_000, SCALE as int);
            lemma_div_range((BOUNCE_N1 as int) * (m * m) / (SCALE as int), 75_625_000_000,
                SCALE as int);
        }
        BOUNCE_N1 * (m * m) / SCALE / SCALE + BOUNCE_H3
    }
}

/// Every easing curve starts at zero and ends at one, exactly: `apply(0)` is
/// `0` and `apply(SCALE)` is `SCALE` for every variant, including the
/// overshooting back and bounce curves.
pub proof fn lemma_easing_endpoints(e: Easing)
    ensures
        ease_spec(e, 0) == 0,
        ease_spec(e, SCALE as int) == SCALE as int,
{
}

/// The smoothstep curve passes through one half at the midpoint, exactly.
pub proof fn lemma_smooth_midpoint()
    ensures
        ease_spec(Easing::Smooth, SCALE as int / 2) == SCALE as int / 2,
{
    assert(SCALE as int / 2 == 1_100_000);
    assert(1_100_000int * 1_100_000int == 1_210_000_000_000int);
    assert(1_210_000_000_000int / 2_200_000int == 550_000int);
    assert(3 * (SCALE as int) - 2 * 1_100_000int == 4_400_000int);
    assert(550_000int * 4_400_000int == 2_420_000_000_000int);
    assert(2_420_000_000_000int / 2_200_000int == 1_100_000int);
    assert(smooth_spec(1_100_000int) == 1_100_000int);
}

impl Default for Easing {
    /// The default easing is the smoothstep curve.
    fn default() -> (r: Easing)
        ensures
            r == Easing::Smooth,
    {
        Easing::Smooth
    }
}

} // verus!
