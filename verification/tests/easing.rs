use maquette::Easing;
use maquette::SCALE;

/// One thousandth of a unit, the tolerance used by the bounds tests.
const TOL: i64 = SCALE / 1000;

#[test]
fn test_easing_bounds() {
    let easings = [
        Easing::Linear,
        Easing::Smooth,
        Easing::EaseInQuad,
        Easing::EaseOutQuad,
        Easing::EaseInOutQuad,
    ];

    for easing in easings {
        assert!((easing.apply(0) - 0).abs() < TOL, "{:?} at 0", easing);
        assert!((easing.apply(SCALE) - SCALE).abs() < TOL, "{:?} at 1", easing);
    }
}

#[test]
fn test_smooth_midpoint() {
    // Smooth should be 0.5 at t=0.5
    let mid = Easing::Smooth.apply(SCALE / 2);
    assert!((mid - SCALE / 2).abs() < TOL);
}

#[test]
fn every_variant_hits_both_endpoints_exactly() {
    let easings = [
        Easing::Linear,
        Easing::Smooth,
        Easing::EaseInQuad,
        Easing::EaseOutQuad,
        Easing::EaseInOutQuad,
        Easing::EaseInCubic,
        Easing::EaseOutCubic,
        Easing::EaseInOutCubic,
        Easing::EaseInOutSine,
        Easing::EaseInExpo,
        Easing::EaseOutExpo,
        Easing::EaseOutBack,
        Easing::EaseOutBounce,
    ];
    for easing in easings {
        assert_eq!(easing.apply(0), 0, "{:?} at 0", easing);
        assert_eq!(easing.apply(SCALE), SCALE, "{:?} at 1", easing);
    }
}

#[test]
fn smooth_midpoint_is_exact() {
    assert_eq!(Easing::Smooth.apply(SCALE / 2), SCALE / 2);
}

#[test]
fn input_is_clamped_to_the_unit_interval() {
    for easing in [Easing::Linear, Easing::Smooth, Easing::EaseOutBounce] {
        assert_eq!(easing.apply(-5 * SCALE), easing.apply(0));
        assert_eq!(easing.apply(7 * SCALE), easing.apply(SCALE));
    }
}

#[test]
fn linear_is_the_identity() {
    assert_eq!(Easing::Linear.apply(SCALE / 4), SCALE / 4);
    assert_eq!(Easing::Linear.apply(1), 1);
}

#[test]
fn quadratic_and_cubic_values() {
    // t^2 at one half is one quarter.
    assert_eq!(Easing::EaseInQuad.apply(SCALE / 2), SCALE / 4);
    // 1 - (1 - t)^2 at one half is three quarters.
    assert_eq!(Easing::EaseOutQuad.apply(SCALE / 2), 3 * SCALE / 4);
    // t^3 at one half is one eighth.
    assert_eq!(Easing::EaseInCubic.apply(SCALE / 2), SCALE / 8);
    // Smoothstep at one quarter: t^2 (3 - 2t) = 5/32.
    assert_eq!(Easing::Smooth.apply(SCALE / 4), 5 * SCALE / 32);
}

#[test]
fn exponential_values_at_the_midpoint() {
    // 2^(10 * 0.5 - 10) = 2^-5 = 1/32, exactly representable.
    assert_eq!(Easing::EaseInExpo.apply(SCALE / 2), SCALE / 32);
    // 1 - 2^(-5) = 31/32.
    assert_eq!(Easing::EaseOutExpo.apply(SCALE / 2), 31 * SCALE / 32);
}

#[test]
fn sinusoidal_midpoint_is_near_one_half() {
    let mid = Easing::EaseInOutSine.apply(SCALE / 2);
    assert_eq!(mid, 1_099_973);
    assert!((mid - SCALE / 2).abs() < TOL);
}

#[test]
fn back_overshoots_past_one_in_the_interior() {
    let v = Easing::EaseOutBack.apply(1_276_000);
    assert_eq!(v, 2_420_011);
    assert!(v > SCALE);
}

#[test]
fn bounce_arcs() {
    // In the second arc: 7.5625 * (t - 1.5/2.75)^2 + 0.75.
    assert_eq!(Easing::EaseOutBounce.apply(1_000_000), 1_787_500);
    // The last arc lands on 1 exactly.
    assert_eq!(Easing::EaseOutBounce.apply(SCALE), SCALE);
}

#[test]
fn default_easing_is_smooth() {
    assert_eq!(Easing::default(), Easing::Smooth);
}
