use maquette::to_screen;
use maquette::BoundingRect;
use maquette::MobjectState;
use maquette::MobjectStyle;
use maquette::Rgba;
use maquette::Vec2Fx;
use maquette::MAX_COORD;
use maquette::SCALE;

#[test]
fn state_defaults_are_opaque_and_centered() {
    let st = MobjectState::new();
    assert_eq!(st.center, Vec2Fx::new(0, 0));
    assert_eq!(st.opacity, SCALE);
    assert_eq!(st.scale, SCALE);
    assert_eq!(st.rotation, 0);
    assert_eq!(MobjectState::default(), st);
}

#[test]
fn setters_write_the_properties() {
    let mut st = MobjectState::new();
    st.set_center(Vec2Fx::new(44, -55));
    st.set_opacity(SCALE / 2);
    st.set_scale(3 * SCALE);
    st.set_rotate(1234);
    assert_eq!(st.center(), Vec2Fx::new(44, -55));
    assert_eq!(st.opacity(), SCALE / 2);
    assert_eq!(st.scale(), 3 * SCALE);
    assert_eq!(st.rotation(), 1234);
    st.rotate(-234);
    assert_eq!(st.rotation(), 1000);
}

#[test]
fn centers_saturate_at_the_scene_bound() {
    let mut st = MobjectState::new();
    st.set_center(Vec2Fx::new(i64::MAX, i64::MIN));
    assert_eq!(st.center(), Vec2Fx::new(MAX_COORD, -MAX_COORD));
}

#[test]
fn style_opacity_scales_both_alpha_channels() {
    let style = MobjectStyle {
        stroke_color: Rgba { red: SCALE, green: 0, blue: 0, alpha: SCALE },
        fill_color: Rgba { red: 0, green: SCALE, blue: 0, alpha: SCALE / 2 },
        stroke_weight: SCALE,
        opacity: SCALE,
    };
    let faded = style.with_opacity(SCALE / 2);
    assert_eq!(faded.opacity, SCALE / 2);
    assert_eq!(faded.stroke_color.alpha, SCALE / 2);
    assert_eq!(faded.fill_color.alpha, SCALE / 4);
    // The color channels themselves are untouched.
    assert_eq!(faded.stroke_color.red, SCALE);
    assert_eq!(faded.fill_color.green, SCALE);
}

#[test]
fn default_style_is_white_stroke_on_transparent_fill() {
    let style = MobjectStyle::default();
    assert_eq!(style.stroke_color, Rgba { red: SCALE, green: SCALE, blue: SCALE, alpha: SCALE });
    assert_eq!(style.fill_color, Rgba { red: 0, green: 0, blue: 0, alpha: 0 });
    assert_eq!(style.stroke_weight, 2 * SCALE);
    assert_eq!(style.opacity, SCALE);
}

#[test]
fn bounding_rects_from_center_and_corners() {
    let r = BoundingRect::from_xy_wh(Vec2Fx::new(100, 200), Vec2Fx::new(50, 30));
    assert_eq!((r.x, r.y, r.w, r.h), (75, 185, 50, 30));
    let c = BoundingRect::from_corners(Vec2Fx::new(-10, -20), Vec2Fx::new(40, 60));
    assert_eq!((c.x, c.y, c.w, c.h), (-10, -20, 50, 80));
}

#[test]
fn screen_coordinates_flip_the_y_axis() {
    let center = Vec2Fx::new(640, 360);
    assert_eq!(to_screen(Vec2Fx::new(0, 0), center), Vec2Fx::new(640, 360));
    assert_eq!(to_screen(Vec2Fx::new(100, 50), center), Vec2Fx::new(740, 310));
}
