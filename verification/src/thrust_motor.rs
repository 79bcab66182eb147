use vstd::prelude::*;

use crate::math::Vec3;

verus! {

/// Fixed parameters of a thrust motor: the thrust and torque it can
/// apply, in whole engine units, and the offset from the entity's
/// origin at which it acts. Any values are valid; no invariant relates
/// the fields.
#[derive(Clone, Copy, Debug, PartialEq, Eq, Structural)]
pub struct ThrustMotor {
    pub thrust: i64,
    pub torque: i64,
    pub offset: Vec3,
}

impl Default for ThrustMotor {
    /// The stock motor: thrust 100, torque 10, acting at the entity's
    /// origin.
    fn default() -> (r: Self)
        ensures
            r.thrust == 100,
            r.torque == 10,
            r.offset.is_zero(),
    {
        ThrustMotor { thrust: 100, torque: 10, offset: Vec3 { x: 0, y: 0, z: 0 } }
    }
}

} // verus!
