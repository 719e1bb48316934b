//! A declarative, time-driven animation sequencer.
//!
//! Callers register drawable objects with a [`scene::Scene`], describe a
//! sequence of animations against them with `play`, `play_together` and
//! `wait`, and later query the composed visual state at any point in time.
//! All quantities are fixed-point ticks (see [`fixed::SCALE`]), which makes
//! the timeline algebra and the easing curves exactly specifiable.

pub mod animation;
pub mod easing;
pub mod fixed;
pub mod mobject;
pub mod scene;
pub mod timeline;

pub use animation::Animation;
pub use animation::Create;
pub use animation::FadeIn;
pub use animation::FadeOut;
pub use animation::MoveTo;
pub use animation::Rotate;
pub use animation::Scale;
pub use animation::Shift;
pub use animation::Uncreate;
pub use easing::Easing;
pub use fixed::Vec2Fx;
pub use fixed::MAX_COORD;
pub use fixed::MAX_TICKS;
pub use fixed::SCALE;
pub use mobject::to_screen;
pub use mobject::BoundingRect;
pub use mobject::MobjectId;
pub use mobject::MobjectState;
pub use mobject::MobjectStyle;
pub use mobject::Rgba;
pub use scene::Camera;
pub use scene::Scene;
pub use timeline::AnimationEntry;
pub use timeline::Timeline;
