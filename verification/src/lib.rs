//! The engine-free logic of a pack of game feel ("juice") effects: easing
//! curve names, tween playback control, slow-motion phases, after-image slot
//! rotation, the trail point cap, squash axes and the hash behind the shake
//! effects. The curves, clocks and scene updates themselves are f32 work on
//! engine nodes and run in the engine-facing crate under `app/`.

pub mod after_image;
pub mod easing;
pub mod noise;
pub mod slow_motion;
pub mod squash_and_stretch;
pub mod trail_renderer;
pub mod tween;

pub use after_image::GhostCursor;
pub use easing::EasingFunction;
pub use noise::noise_bits;
pub use slow_motion::{SlowMotionClocks, SlowMotionControl, SlowMotionPhase};
pub use squash_and_stretch::SquashAxis;
pub use trail_renderer::push_capped;
pub use tween::{PlaybackReset, TickStep, TweenLoop, TweenMessage, TweenPlayback};
