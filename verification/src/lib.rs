//! Animation interpolation engine: given a begin and an end rigid-body pose
//! (position + rotation), produce time- or frame-parameterized homogeneous
//! transforms.
//!
//! All arithmetic is exact fixed-point arithmetic over integers: scalar
//! values (positions, quaternion components, interpolation fractions) carry
//! a scale of `fixed::ONE` units per 1.0, and angles are measured in
//! thousandths of a degree, `fixed::TURN` units per full turn.

use vstd::prelude::*;

pub mod angles;
pub mod animation;
pub mod animation_data;
pub mod fixed;
pub mod interpolation;
pub mod matrix;
pub mod quaternion;
pub mod trig;

pub use crate::angles::AnimationAngle;
pub use crate::animation::Animation;
pub use crate::animation::ContinuousAnimation;
pub use crate::animation::ContinuousAnimationBuilder;
pub use crate::animation::DiscreteFrameAnimation;
pub use crate::animation::DiscreteFrameAnimationBuilder;
pub use crate::animation_data::QuaternionInterpolationType;
pub use crate::matrix::Transform4;
pub use crate::quaternion::Quat;
pub use crate::quaternion::Vec3;

verus! {

} // verus!
