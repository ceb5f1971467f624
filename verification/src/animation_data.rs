//! Selection of the rotation interpolation law.

use vstd::prelude::*;

verus! {

/// Which law maps two unit quaternions and a fraction to an
/// interpolated rotation: a component-wise linear blend, or a spherical
/// (constant-angular-velocity) blend.
#[derive(Debug, Clone, Copy, Default, PartialEq, Eq, Structural)]
pub enum QuaternionInterpolationType {
    #[default]
    Linear,
    Spherical,
}

} // verus!
