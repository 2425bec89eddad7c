//! The velocity state that every kind of kinetic energy carries.

use vstd::prelude::*;
use crate::fixed::Fixed;
use crate::vector::PaddedVec2;

verus! {

/// Velocity, acceleration, brake and limit of one energy of an actor.
#[derive(Copy, Clone, Debug, PartialEq, Eq, Structural)]
pub struct KineticEnergy {
    /// Current velocity.
    pub speed: PaddedVec2,
    /// Auxiliary vector; the knock-back curve keeps the previous velocity here.
    pub rot_speed: PaddedVec2,
    /// Whether the energy takes part in the integration step.
    pub enable: bool,
    /// Change of the velocity per frame.
    pub accel: PaddedVec2,
    /// Reference velocity; a target or a cap, depending on the mode.
    pub speed_max: PaddedVec2,
    /// Deceleration toward zero per frame, for each axis.
    pub speed_brake: PaddedVec2,
    /// Clamp for each axis; minus one switches the clamp of that axis off.
    pub speed_limit: PaddedVec2,
    pub consider_ground_friction: bool,
    pub active_flag: bool,
    pub energy_reset_type: u32,
}

impl KineticEnergy {
    /// The limit that switches both clamps off.
    pub open spec fn no_limit() -> PaddedVec2 {
        PaddedVec2 { x: Fixed { micros: -1_000_000i64 }, y: Fixed { micros: -1_000_000i64 } }
    }

    /// The limit that switches both clamps off: minus one on each axis.
    pub fn unlimited() -> (r: PaddedVec2)
        ensures
            r == KineticEnergy::no_limit(),
    {
        PaddedVec2::new(Fixed::from_micros(-1_000_000), Fixed::from_micros(-1_000_000))
    }
}

} // verus!
