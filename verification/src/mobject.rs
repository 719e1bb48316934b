//! Identifiers and animatable state for drawable objects.
//!
//! The concrete geometry of a drawable object (its shape, colors, vertex
//! data) lives outside this crate; the animation engine reads and writes only
//! the small capability set modeled here: a center position, an opacity, a
//! scale factor and a rotation angle, all in fixed-point ticks.

use vstd::prelude::*;
use crate::fixed::MAX_COORD;
use crate::fixed::SCALE;
use crate::fixed::Vec2Fx;
use crate::fixed::clamp_coord_spec;

verus! {

/// Unique identifier for mobjects in a scene. Identifiers are assigned by the
/// scene registry, monotonically and never reused.
#[derive(Clone, Copy, Debug, PartialEq, Eq, Hash, Structural)]
pub struct MobjectId(pub u64);

impl MobjectId {
    /// Wraps a raw identifier value.
    pub fn new(raw: u64) -> (r: MobjectId)
        ensures
            r == MobjectId(raw),
    {
        MobjectId(raw)
    }
}

/// The animatable state of one drawable object: exactly the properties the
/// timeline engine may mutate when it resolves a frame.
#[derive(Clone, Copy, Debug, PartialEq, Eq)]
pub struct MobjectState {
    /// Center position in the scene plane, saturated into
    /// `[-MAX_COORD, MAX_COORD]` on each component.
    pub center: Vec2Fx,
    /// Opacity in ticks, nominally `0..SCALE` but not clamped by the engine.
    pub opacity: i64,
    /// Scale factor in ticks (`SCALE` is 1.0).
    pub scale: i64,
    /// Rotation angle in fixed-point radians.
    pub rotation: i64,
}

impl MobjectState {
    /// Well-formedness: the center lies within the scene's coordinate bound.
    pub open spec fn wf(self) -> bool {
        self.center.in_range(MAX_COORD as int)
    }

    /// A fresh state: centered at the origin, fully opaque, unit scale,
    /// unrotated.
    pub fn new() -> (r: MobjectState)
        ensures
            r == (MobjectState {
                center: Vec2Fx { x: 0, y: 0 },
                opacity: SCALE,
                scale: SCALE,
                rotation: 0,
            }),
            r.wf(),
    {
        MobjectState { center: Vec2Fx { x: 0, y: 0 }, opacity: SCALE, scale: SCALE, rotation: 0 }
    }

    /// Builder: place the object at `pos` (saturated into the scene bound).
    pub fn at(self, pos: Vec2Fx) -> (r: MobjectState)
        ensures
            r == (MobjectState {
                center: Vec2Fx {
                    x: clamp_coord_spec(pos.x as int) as i64,
                    y: clamp_coord_spec(pos.y as int) as i64,
                },
                ..self
            }),
            r.wf(),
    {
        let mut s = self;
        s.set_center(pos);
        s
    }

    pub fn center(&self) -> (r: Vec2Fx)
        ensures
            r == self.center,
    {
        self.center
    }

    /// Sets the center, saturating each component into the scene bound.
    pub fn set_center(&mut self, pos: Vec2Fx)
        ensures
            *final(self) == (MobjectState {
                center: Vec2Fx {
                    x: clamp_coord_spec(pos.x as int) as i64,
                    y: clamp_coord_spec(pos.y as int) as i64,
                },
                ..*old(self)
            }),
            final(self).wf(),
    {
        self.center = Vec2Fx { x: clamp_coord(pos.x), y: clamp_coord(pos.y) };
    }

    pub fn opacity(&self) -> (r: i64)
        ensures
            r == self.opacity,
    {
        self.opacity
    }

    pub fn set_opacity(&mut self, opacity: i64)
        ensures
            *final(self) == (MobjectState { opacity, ..*old(self) }),
            old(self).wf() ==> final(self).wf(),
    {
        self.opacity = opacity;
    }

    pub fn scale(&self) -> (r: i64)
        ensures
            r == self.scale,
    {
        self.scale
    }

    pub fn set_scale(&mut self, scale: i64)
        ensures
            *final(self) == (MobjectState { scale, ..*old(self) }),
            old(self).wf() ==> final(self).wf(),
    {
        self.scale = scale;
    }

    /// Builder: set the opacity.
    pub fn with_opacity(self, opacity: i64) -> (r: MobjectState)
        ensures
            r == (MobjectState { opacity, ..self }),
    {
        MobjectState { opacity, ..self }
    }

    pub fn rotation(&self) -> (r: i64)
        ensures
            r == self.rotation,
    {
        self.rotation
    }

    /// Rotates by `angle`, saturating at the `i64` range.
    pub fn rotate(&mut self, angle: i64)
        ensures
            *final(self) == (MobjectState {
                rotation: saturating_add_spec(old(self).rotation as int, angle as int) as i64,
                ..*old(self)
            }),
            old(self).wf() ==> final(self).wf(),
    {
        let r =
        if angle >= 0 {
            if self.rotation > i64::MAX - angle {
                i64::MAX
            } else {
                self.rotation + angle
            }
        } else {
            if self.rotation < i64::MIN - angle {
                i64::MIN
            } else {
                self.rotation + angle
            }
        };
        self.rotation = r;
    }

    pub fn set_rotate(&mut self, angle: i64)
        ensures
            *final(self) == (MobjectState { rotation: angle, ..*old(self) }),
            old(self).wf() ==> final(self).wf(),
    {
        self.rotation = angle;
    }
}

/// A color with fixed-point channels (`SCALE` is full intensity).
#[derive(Clone, Copy, Debug, PartialEq, Eq)]
pub struct Rgba {
    pub red: i64,
    pub green: i64,
    pub blue: i64,
    pub alpha: i64,
}

/// Bound on the color channels and opacities that [`MobjectStyle`] scales:
/// a thousand times full intensity, far past anything a renderer uses, so
/// that scaling provably stays inside `i64`.
pub const MAX_CHANNEL: i64 = 2_200_000_000;

/// Drawing style shared by all concrete drawable objects: stroke and fill
/// colors, a stroke weight and an overall opacity, all in fixed-point ticks.
#[derive(Clone, Copy, Debug, PartialEq, Eq)]
pub struct MobjectStyle {
    pub stroke_color: Rgba,
    pub fill_color: Rgba,
    /// Stroke weight in ticks (`SCALE` is a weight of 1.0).
    pub stroke_weight: i64,
    /// Overall opacity in ticks, nominally `0..SCALE` but not clamped.
    pub opacity: i64,
}

/// One alpha channel scaled by an opacity, with truncating division.
pub open spec fn scaled_alpha_spec(alpha: int, opacity: int) -> int {
    crate::fixed::div_trunc(alpha * opacity, SCALE as int)
}

impl MobjectStyle {
    /// Apply an opacity to the style: it becomes the style's opacity and
    /// scales both colors' alpha channels.
    pub fn with_opacity(&self, opacity: i64) -> (r: MobjectStyle)
        requires
            -MAX_CHANNEL <= opacity <= MAX_CHANNEL,
            -MAX_CHANNEL <= self.stroke_color.alpha <= MAX_CHANNEL,
            -MAX_CHANNEL <= self.fill_color.alpha <= MAX_CHANNEL,
        ensures
            r == (MobjectStyle {
                stroke_color: Rgba {
                    alpha: scaled_alpha_spec(
                        self.stroke_color.alpha as int,
                        opacity as int,
                    ) as i64,
                    ..self.stroke_color
                },
                fill_color: Rgba {
                    alpha: scaled_alpha_spec(self.fill_color.alpha as int, opacity as int) as i64,
                    ..self.fill_color
                },
                opacity,
                ..*self
            }),
    {
        let mut style = *self;
        style.opacity = opacity;
        style.stroke_color.alpha = scaled_alpha(self.stroke_color.alpha, opacity);
        style.fill_color.alpha = scaled_alpha(self.fill_color.alpha, opacity);
        style
    }
}

/// Scales one alpha channel by an opacity.
fn scaled_alpha(alpha: i64, opacity: i64) -> (r: i64)
    requires
        -MAX_CHANNEL <= alpha <= MAX_CHANNEL,
        -MAX_CHANNEL <= opacity <= MAX_CHANNEL,
    ensures
        r == scaled_alpha_spec(alpha as int, opacity as int),
{
    assert(-4_840_000_000_000_000_000 <= alpha * opacity <= 4_840_000_000_000_000_000)
        by (nonlinear_arith)
        requires
            -2_200_000_000 <= alpha <= 2_200_000_000,
            -2_200_000_000 <= opacity <= 2_200_000_000,
    ;
    let n = alpha * opacity;
    if n >= 0 {
        n / SCALE
    } else {
        -((-n) / SCALE)
    }
}

impl Default for MobjectStyle {
    /// White stroke, transparent black fill, a stroke weight of 2.0, fully
    /// opaque.
    fn default() -> (r: MobjectStyle)
        ensures
            r == (MobjectStyle {
                stroke_color: Rgba { red: SCALE, green: SCALE, blue: SCALE, alpha: SCALE },
                fill_color: Rgba { red: 0, green: 0, blue: 0, alpha: 0 },
                stroke_weight: (2 * SCALE) as i64,
                opacity: SCALE,
            }),
    {
        MobjectStyle {
            stroke_color: Rgba { red: SCALE, green: SCALE, blue: SCALE, alpha: SCALE },
            fill_color: Rgba { red: 0, green: 0, blue: 0, alpha: 0 },
            stroke_weight: 2 * SCALE,
            opacity: SCALE,
        }
    }
}

/// An axis-aligned rectangle for bounding boxes, in fixed-point ticks:
/// origin at the lower corner, with a width and a height.
#[derive(Clone, Copy, Debug, PartialEq, Eq)]
pub struct BoundingRect {
    pub x: i64,
    pub y: i64,
    pub w: i64,
    pub h: i64,
}

impl BoundingRect {
    /// The rectangle of the given size centered at `center`.
    pub fn from_xy_wh(center: Vec2Fx, size: Vec2Fx) -> (r: BoundingRect)
        requires
            center.in_range(MAX_COORD as int),
            size.in_range(MAX_COORD as int),
        ensures
            r == (BoundingRect {
                x: (center.x - crate::fixed::div_trunc(size.x as int, 2)) as i64,
                y: (center.y - crate::fixed::div_trunc(size.y as int, 2)) as i64,
                w: size.x,
                h: size.y,
            }),
    {
        let hx = if size.x >= 0 {
            size.x / 2
        } else {
            -((-size.x) / 2)
        };
        let hy = if size.y >= 0 {
            size.y / 2
        } else {
            -((-size.y) / 2)
        };
        BoundingRect { x: center.x - hx, y: center.y - hy, w: size.x, h: size.y }
    }

    /// The rectangle spanning the two given corners.
    pub fn from_corners(min: Vec2Fx, max: Vec2Fx) -> (r: BoundingRect)
        requires
            min.in_range(MAX_COORD as int),
            max.in_range(MAX_COORD as int),
        ensures
            r == (BoundingRect {
                x: min.x,
                y: min.y,
                w: (max.x - min.x) as i64,
                h: (max.y - min.y) as i64,
            }),
    {
        BoundingRect { x: min.x, y: min.y, w: max.x - min.x, h: max.y - min.y }
    }
}

/// Converts from center-origin scene coordinates to screen coordinates,
/// where the origin is the top-left corner and y grows downward.
pub fn to_screen(pos: Vec2Fx, screen_center: Vec2Fx) -> (r: Vec2Fx)
    requires
        pos.in_range(MAX_COORD as int),
        screen_center.in_range(MAX_COORD as int),
    ensures
        r == (Vec2Fx {
            x: (screen_center.x + pos.x) as i64,
            y: (screen_center.y - pos.y) as i64,
        }),
{
    Vec2Fx { x: screen_center.x + pos.x, y: screen_center.y - pos.y }
}

/// Addition on `i64` values saturated at the type's range.
pub open spec fn saturating_add_spec(a: int, b: int) -> int {
    if a + b > i64::MAX {
        i64::MAX as int
    } else if a + b < i64::MIN {
        i64::MIN as int
    } else {
        a + b
    }
}

/// Saturates one coordinate into `[-MAX_COORD, MAX_COORD]`.
pub fn clamp_coord(x: i64) -> (r: i64)
    ensures
        r == clamp_coord_spec(x as int),
{
    if x < -MAX_COORD {
        -MAX_COORD
    } else if x > MAX_COORD {
        MAX_COORD
    } else {
        x
    }
}

impl Default for MobjectState {
    /// Same as [`MobjectState::new`].
    fn default() -> (r: MobjectState)
        ensures
            r == (MobjectState {
                center: Vec2Fx { x: 0, y: 0 },
                opacity: SCALE,
                scale: SCALE,
                rotation: 0,
            }),
    {
        MobjectState::new()
    }
}

} // verus!
