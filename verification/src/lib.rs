//! Core of a beat-synchronized simulation: a rhythm clock, tween waveforms
//! gated on beat counts, kinematic modulators that drive velocity, scale and
//! rotation from the clock, and an all-pairs circular-collision scan with
//! mass-weighted pushback.
//!
//! All scalars are fixed-point integers with denominator [`num::SCALE`]: the
//! stored value `1_000` stands for `1.0`.
pub mod clock;
pub mod error;
pub mod monster;
pub mod num;
pub mod physics;
pub mod sim;
pub mod tween;
pub mod vec2;
