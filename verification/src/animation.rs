//! Animation effects: a closed set of variants, each binding a target object
//! identifier, a duration, an easing curve and effect-specific parameters.
//!
//! Effects are built with a small builder API (`new`, then `duration` and
//! `easing`), wrapped into the [`Animation`] enum, and scheduled on a
//! timeline. Durations are in ticks; a non-positive duration is accepted and
//! clamped to zero (an instantaneous snap).

use vstd::prelude::*;
use crate::easing::Easing;
use crate::easing::PI_TICKS;
use crate::fixed::MAX_COORD;
use crate::fixed::MAX_TICKS;
use crate::fixed::SCALE;
use crate::fixed::Vec2Fx;
use crate::fixed::div_trunc;
use crate::mobject::MobjectId;

verus! {

/// A duration offered to a builder, clamped at zero: negative durations are
/// accepted and treated as instantaneous.
pub open spec fn clamp_dur_spec(d: int) -> int {
    if d < 0 {
        0
    } else {
        d
    }
}

/// Clamps a duration at zero.
fn clamp_dur(d: i64) -> (r: i64)
    ensures
        r == clamp_dur_spec(d as int),
{
    if d < 0 {
        0
    } else {
        d
    }
}

/// Fade in: opacity goes from 0 to 1.
#[derive(Clone, Copy, Debug, PartialEq, Eq)]
pub struct FadeIn {
    pub target: MobjectId,
    pub duration: i64,
    pub easing: Easing,
}

impl FadeIn {
    pub fn new(target: MobjectId) -> (r: FadeIn)
        ensures
            r == (FadeIn { target, duration: SCALE, easing: Easing::Smooth }),
    {
        FadeIn { target, duration: SCALE, easing: Easing::Smooth }
    }

    pub fn duration(self, secs: i64) -> (r: FadeIn)
        requires
            secs <= MAX_TICKS,
        ensures
            r == (FadeIn { duration: clamp_dur_spec(secs as int) as i64, ..self }),
    {
        FadeIn { duration: clamp_dur(secs), ..self }
    }

    pub fn easing(self, easing: Easing) -> (r: FadeIn)
        ensures
            r == (FadeIn { easing, ..self }),
    {
        FadeIn { easing, ..self }
    }
}

/// Fade out: opacity goes from 1 to 0.
#[derive(Clone, Copy, Debug, PartialEq, Eq)]
pub struct FadeOut {
    pub target: MobjectId,
    pub duration: i64,
    pub easing: Easing,
}

impl FadeOut {
    pub fn new(target: MobjectId) -> (r: FadeOut)
        ensures
            r == (FadeOut { target, duration: SCALE, easing: Easing::Smooth }),
    {
        FadeOut { target, duration: SCALE, easing: Easing::Smooth }
    }

    pub fn duration(self, secs: i64) -> (r: FadeOut)
        requires
            secs <= MAX_TICKS,
        ensures
            r == (FadeOut { duration: clamp_dur_spec(secs as int) as i64, ..self }),
    {
        FadeOut { duration: clamp_dur(secs), ..self }
    }

    pub fn easing(self, easing: Easing) -> (r: FadeOut)
        ensures
            r == (FadeOut { easing, ..self }),
    {
        FadeOut { easing, ..self }
    }
}

/// Create: progressively reveals the object's stroke. The object's own draw
/// routine receives the progress; the engine does not mutate object state.
#[derive(Clone, Copy, Debug, PartialEq, Eq)]
pub struct Create {
    pub target: MobjectId,
    pub duration: i64,
    pub easing: Easing,
    /// Vestigial progress slot; draw progress is resolved by the timeline.
    pub progress: i64,
}

impl Create {
    pub fn new(target: MobjectId) -> (r: Create)
        ensures
            r == (Create { target, duration: SCALE, easing: Easing::Smooth, progress: 0 }),
    {
        Create { target, duration: SCALE, easing: Easing::Smooth, progress: 0 }
    }

    pub fn duration(self, secs: i64) -> (r: Create)
        requires
            secs <= MAX_TICKS,
        ensures
            r == (Create { duration: clamp_dur_spec(secs as int) as i64, ..self }),
    {
        Create { duration: clamp_dur(secs), ..self }
    }

    pub fn easing(self, easing: Easing) -> (r: Create)
        ensures
            r == (Create { easing, ..self }),
    {
        Create { easing, ..self }
    }

    /// The stored drawing progress slot.
    pub fn progress(&self) -> (r: i64)
        ensures
            r == self.progress,
    {
        self.progress
    }
}

/// Uncreate: the reverse of [`Create`]; the stroke erases progressively.
#[derive(Clone, Copy, Debug, PartialEq, Eq)]
pub struct Uncreate {
    pub target: MobjectId,
    pub duration: i64,
    pub easing: Easing,
}

impl Uncreate {
    pub fn new(target: MobjectId) -> (r: Uncreate)
        ensures
            r == (Uncreate { target, duration: SCALE, easing: Easing::Smooth }),
    {
        Uncreate { target, duration: SCALE, easing: Easing::Smooth }
    }

    pub fn duration(self, secs: i64) -> (r: Uncreate)
        requires
            secs <= MAX_TICKS,
        ensures
            r == (Uncreate { duration: clamp_dur_spec(secs as int) as i64, ..self }),
    {
        Uncreate { duration: clamp_dur(secs), ..self }
    }

    pub fn easing(self, easing: Easing) -> (r: Uncreate)
        ensures
            r == (Uncreate { easing, ..self }),
    {
        Uncreate { easing, ..self }
    }
}

/// Move the target to an absolute position, interpolating from the position
/// it had when the animation was scheduled.
#[derive(Clone, Copy, Debug, PartialEq, Eq)]
pub struct MoveTo {
    pub target: MobjectId,
    pub destination: Vec2Fx,
    pub duration: i64,
    pub easing: Easing,
}

impl MoveTo {
    pub fn new(target: MobjectId, destination: Vec2Fx) -> (r: MoveTo)
        requires
            destination.in_range(MAX_COORD as int),
        ensures
            r == (MoveTo { target, destination, duration: SCALE, easing: Easing::Smooth }),
    {
        MoveTo { target, destination, duration: SCALE, easing: Easing::Smooth }
    }

    pub fn duration(self, secs: i64) -> (r: MoveTo)
        requires
            secs <= MAX_TICKS,
        ensures
            r == (MoveTo { duration: clamp_dur_spec(secs as int) as i64, ..self }),
    {
        MoveTo { duration: clamp_dur(secs), ..self }
    }

    pub fn easing(self, easing: Easing) -> (r: MoveTo)
        ensures
            r == (MoveTo { easing, ..self }),
    {
        MoveTo { easing, ..self }
    }
}

/// Shift the target by a relative offset from the position it had when the
/// animation was scheduled.
#[derive(Clone, Copy, Debug, PartialEq, Eq)]
pub struct Shift {
    pub target: MobjectId,
    pub delta: Vec2Fx,
    pub duration: i64,
    pub easing: Easing,
}

impl Shift {
    pub fn new(target: MobjectId, delta: Vec2Fx) -> (r: Shift)
        requires
            delta.in_range(MAX_COORD as int),
        ensures
            r == (Shift { target, delta, duration: SCALE, easing: Easing::Smooth }),
    {
        Shift { target, delta, duration: SCALE, easing: Easing::Smooth }
    }

    pub fn duration(self, secs: i64) -> (r: Shift)
        requires
            secs <= MAX_TICKS,
        ensures
            r == (Shift { duration: clamp_dur_spec(secs as int) as i64, ..self }),
    {
        Shift { duration: clamp_dur(secs), ..self }
    }

    pub fn easing(self, easing: Easing) -> (r: Shift)
        ensures
            r == (Shift { easing, ..self }),
    {
        Shift { easing, ..self }
    }
}

/// Scale animation: a placeholder effect. The engine evaluates its easing
/// but applies no state change yet.
#[derive(Clone, Copy, Debug, PartialEq, Eq)]
pub struct Scale {
    pub target: MobjectId,
    pub factor: i64,
    pub duration: i64,
    pub easing: Easing,
}

impl Scale {
    pub fn new(target: MobjectId, factor: i64) -> (r: Scale)
        ensures
            r == (Scale { target, factor, duration: SCALE, easing: Easing::Smooth }),
    {
        Scale { target, factor, duration: SCALE, easing: Easing::Smooth }
    }

    pub fn duration(self, secs: i64) -> (r: Scale)
        requires
            secs <= MAX_TICKS,
        ensures
            r == (Scale { duration: clamp_dur_spec(secs as int) as i64, ..self }),
    {
        Scale { duration: clamp_dur(secs), ..self }
    }

    pub fn easing(self, easing: Easing) -> (r: Scale)
        ensures
            r == (Scale { easing, ..self }),
    {
        Scale { easing, ..self }
    }
}

/// Rotation animation: a placeholder effect. The engine evaluates its easing
/// but applies no state change yet.
#[derive(Clone, Copy, Debug, PartialEq, Eq)]
pub struct Rotate {
    pub target: MobjectId,
    /// Rotation angle in fixed-point radians.
    pub angle: i64,
    pub duration: i64,
    pub easing: Easing,
}

/// Degrees converted to fixed-point radians: `deg * pi / 180`, with
/// truncating division as computed by [`Rotate::degrees`].
pub open spec fn degrees_to_ticks_spec(deg: int) -> int {
    div_trunc(div_trunc(deg * (PI_TICKS as int), SCALE as int), 180)
}

impl Rotate {
    pub fn new(target: MobjectId, angle: i64) -> (r: Rotate)
        ensures
            r == (Rotate { target, angle, duration: SCALE, easing: Easing::Smooth }),
    {
        Rotate { target, angle, duration: SCALE, easing: Easing::Smooth }
    }

    /// Rotate by degrees instead of radians.
    pub fn degrees(target: MobjectId, degrees: i64) -> (r: Rotate)
        requires
            -MAX_TICKS <= degrees <= MAX_TICKS,
        ensures
            r == (Rotate {
                target,
                angle: degrees_to_ticks_spec(degrees as int) as i64,
                duration: SCALE,
                easing: Easing::Smooth,
            }),
    {
        assert(-6_911_504_000_000_000_000 <= degrees * PI_TICKS <= 6_911_504_000_000_000_000)
            by (nonlinear_arith)
            requires
                -1_000_000_000_000 <= degrees <= 1_000_000_000_000,
        ;
        let n = degrees * PI_TICKS;
        let scaled = if n >= 0 {
            n / SCALE
        } else {
            -((-n) / SCALE)
        };
        let angle = if scaled >= 0 {
            scaled / 180
        } else {
            -((-scaled) / 180)
        };
        Rotate { target, angle, duration: SCALE, easing: Easing::Smooth }
    }

    pub fn duration(self, secs: i64) -> (r: Rotate)
        requires
            secs <= MAX_TICKS,
        ensures
            r == (Rotate { duration: clamp_dur_spec(secs as int) as i64, ..self }),
    {
        Rotate { duration: clamp_dur(secs), ..self }
    }

    pub fn easing(self, easing: Easing) -> (r: Rotate)
        ensures
            r == (Rotate { easing, ..self }),
    {
        Rotate { easing, ..self }
    }
}

/// One scheduled animation effect: a closed enum over the effect variants,
/// all sharing a target, a duration and an easing curve.
#[derive(Clone, Copy, Debug, PartialEq, Eq)]
pub enum Animation {
    FadeIn(FadeIn),
    FadeOut(FadeOut),
    Create(Create),
    Uncreate(Uncreate),
    MoveTo(MoveTo),
    Shift(Shift),
    Scale(Scale),
    Rotate(Rotate),
}

impl Animation {
    /// Duration of this animation, in ticks.
    pub open spec fn duration_spec(self) -> int {
        match self {
            Animation::FadeIn(a) => a.duration as int,
            Animation::FadeOut(a) => a.duration as int,
            Animation::Create(a) => a.duration as int,
            Animation::Uncreate(a) => a.duration as int,
            Animation::MoveTo(a) => a.duration as int,
            Animation::Shift(a) => a.duration as int,
            Animation::Scale(a) => a.duration as int,
            Animation::Rotate(a) => a.duration as int,
        }
    }

    /// The identifier of the mobject this animation targets.
    pub open spec fn target_spec(self) -> MobjectId {
        match self {
            Animation::FadeIn(a) => a.target,
            Animation::FadeOut(a) => a.target,
            Animation::Create(a) => a.target,
            Animation::Uncreate(a) => a.target,
            Animation::MoveTo(a) => a.target,
            Animation::Shift(a) => a.target,
            Animation::Scale(a) => a.target,
            Animation::Rotate(a) => a.target,
        }
    }

    /// The easing curve of this animation.
    pub open spec fn easing_spec(self) -> Easing {
        match self {
            Animation::FadeIn(a) => a.easing,
            Animation::FadeOut(a) => a.easing,
            Animation::Create(a) => a.easing,
            Animation::Uncreate(a) => a.easing,
            Animation::MoveTo(a) => a.easing,
            Animation::Shift(a) => a.easing,
            Animation::Scale(a) => a.easing,
            Animation::Rotate(a) => a.easing,
        }
    }

    /// Well-formedness: the duration is a bounded non-negative tick count and
    /// the positional parameters lie within the scene's coordinate bound.
    pub open spec fn wf(self) -> bool {
        0 <= self.duration_spec() <= MAX_TICKS && match self {
            Animation::MoveTo(a) => a.destination.in_range(MAX_COORD as int),
            Animation::Shift(a) => a.delta.in_range(MAX_COORD as int),
            _ => true,
        }
    }

    /// Duration of this animation in ticks.
    pub fn duration(&self) -> (r: i64)
        ensures
            r == self.duration_spec(),
    {
        match self {
            Animation::FadeIn(a) => a.duration,
            Animation::FadeOut(a) => a.duration,
            Animation::Create(a) => a.duration,
            Animation::Uncreate(a) => a.duration,
            Animation::MoveTo(a) => a.duration,
            Animation::Shift(a) => a.duration,
            Animation::Scale(a) => a.duration,
            Animation::Rotate(a) => a.duration,
        }
    }

    /// The identifier of the mobject this animation targets.
    pub fn target_id(&self) -> (r: MobjectId)
        ensures
            r == self.target_spec(),
    {
        match self {
            Animation::FadeIn(a) => a.target,
            Animation::FadeOut(a) => a.target,
            Animation::Create(a) => a.target,
            Animation::Uncreate(a) => a.target,
            Animation::MoveTo(a) => a.target,
            Animation::Shift(a) => a.target,
            Animation::Scale(a) => a.target,
            Animation::Rotate(a) => a.target,
        }
    }

    /// The easing curve of this animation.
    pub fn easing(&self) -> (r: Easing)
        ensures
            r == self.easing_spec(),
    {
        match self {
            Animation::FadeIn(a) => a.easing,
            Animation::FadeOut(a) => a.easing,
            Animation::Create(a) => a.easing,
            Animation::Uncreate(a) => a.easing,
            Animation::MoveTo(a) => a.easing,
            Animation::Shift(a) => a.easing,
            Animation::Scale(a) => a.easing,
            Animation::Rotate(a) => a.easing,
        }
    }

    /// True when this animation moves its target and therefore captures the
    /// target's position at schedule time.
    pub fn captures_start(&self) -> (r: bool)
        ensures
            r == self.captures_start_spec(),
    {
        match self {
            Animation::MoveTo(_) => true,
            Animation::Shift(_) => true,
            _ => false,
        }
    }

    /// See [`Animation::captures_start`].
    pub open spec fn captures_start_spec(self) -> bool {
        match self {
            Animation::MoveTo(_) => true,
            Animation::Shift(_) => true,
            _ => false,
        }
    }
}

impl From<FadeIn> for Animation {
    fn from(a: FadeIn) -> (r: Animation) {
        Animation::FadeIn(a)
    }
}

impl vstd::std_specs::convert::FromSpecImpl<FadeIn> for Animation {
    open spec fn obeys_from_spec() -> bool {
        true
    }

    open spec fn from_spec(a: FadeIn) -> Animation {
        Animation::FadeIn(a)
    }
}

impl From<FadeOut> for Animation {
    fn from(a: FadeOut) -> (r: Animation) {
        Animation::FadeOut(a)
    }
}

impl vstd::std_specs::convert::FromSpecImpl<FadeOut> for Animation {
    open spec fn obeys_from_spec() -> bool {
        true
    }

    open spec fn from_spec(a: FadeOut) -> Animation {
        Animation::FadeOut(a)
    }
}

impl From<Create> for Animation {
    fn from(a: Create) -> (r: Animation) {
        Animation::Create(a)
    }
}

impl vstd::std_specs::convert::FromSpecImpl<Create> for Animation {
    open spec fn obeys_from_spec() -> bool {
        true
    }

    open spec fn from_spec(a: Create) -> Animation {
        Animation::Create(a)
    }
}

impl From<Uncreate> for Animation {
    fn from(a: Uncreate) -> (r: Animation) {
        Animation::Uncreate(a)
    }
}

impl vstd::std_specs::convert::FromSpecImpl<Uncreate> for Animation {
    open spec fn obeys_from_spec() -> bool {
        true
    }

    open spec fn from_spec(a: Uncreate) -> Animation {
        Animation::Uncreate(a)
    }
}

impl From<MoveTo> for Animation {
    fn from(a: MoveTo) -> (r: Animation) {
        Animation::MoveTo(a)
    }
}

impl vstd::std_specs::convert::FromSpecImpl<MoveTo> for Animation {
    open spec fn obeys_from_spec() -> bool {
        true
    }

    open spec fn from_spec(a: MoveTo) -> Animation {
        Animation::MoveTo(a)
    }
}

impl From<Shift> for Animation {
    fn from(a: Shift) -> (r: Animation) {
        Animation::Shift(a)
    }
}

impl vstd::std_specs::convert::FromSpecImpl<Shift> for Animation {
    open spec fn obeys_from_spec() -> bool {
        true
    }

    open spec fn from_spec(a: Shift) -> Animation {
        Animation::Shift(a)
    }
}

impl From<Scale> for Animation {
    fn from(a: Scale) -> (r: Animation) {
        Animation::Scale(a)
    }
}

impl vstd::std_specs::convert::FromSpecImpl<Scale> for Animation {
    open spec fn obeys_from_spec() -> bool {
        true
    }

    open spec fn from_spec(a: Scale) -> Animation {
        Animation::Scale(a)
    }
}

impl From<Rotate> for Animation {
    fn from(a: Rotate) -> (r: Animation) {
        Animation::Rotate(a)
    }
}

impl vstd::std_specs::convert::FromSpecImpl<Rotate> for Animation {
    open spec fn obeys_from_spec() -> bool {
        true
    }

    open spec fn from_spec(a: Rotate) -> Animation {
        Animation::Rotate(a)
    }
}

} // verus!
