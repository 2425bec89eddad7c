//! The per-frame physics of an actor that flies off after a hit.
//!
//! A frame runs through fixed stages: a one-off scaling of the velocity
//! that is announced one frame ahead, a linear pull toward a target
//! velocity, the choice between ground braking and air braking, the hold of
//! a position target, and the air brake itself.

use vstd::prelude::*;
use crate::energy::KineticEnergy;
use crate::fixed::Fixed;
use crate::parameters::{ActorStatus, SituationKind, StopParameters};
use crate::reset_type::EnergyStopResetType;
use crate::stop::FighterKineticEnergyStop;
use crate::vector::PaddedVec2;

verus! {

/// Speeds below this, a hundred-thousandth, count as standing still.
pub const NEGLIGIBLE_SPEED_MICROS: i64 = 10;

/// A component moved toward zero by `step` when it is positive, and back up
/// by `step` when that, or the component itself, is negative.
pub open spec fn snapped_spec(value: Fixed, step: Fixed) -> Fixed {
    let lowered = if 0 < value.micros {
        value.sub_spec(step)
    } else {
        value
    };
    if lowered.micros < 0 {
        lowered.add_spec(step)
    } else {
        lowered
    }
}

/// Moves a component toward zero by `step`, see `snapped_spec`.
pub fn snapped(value: Fixed, step: Fixed) -> (r: Fixed)
    ensures
        r == snapped_spec(value, step),
{
    let mut lowered = value;
    if 0 < lowered.micros {
        lowered = lowered.sub(step);
    }
    if lowered.micros < 0 {
        lowered = lowered.add(step);
    }
    lowered
}

/// A velocity whose length `magnitude` exceeds a position target's limit is
/// replaced: each component by its square over the root of the length, or
/// by its bare square where the length is zero.
pub open spec fn target_limited_spec(speed: PaddedVec2, magnitude: Fixed) -> PaddedVec2 {
    if magnitude.micros != 0 {
        PaddedVec2 {
            x: speed.x.mul_spec(speed.x).div_spec(magnitude.sqrt_spec()),
            y: speed.y.mul_spec(speed.y).div_spec(magnitude.sqrt_spec()),
        }
    } else {
        PaddedVec2 { x: speed.x.mul_spec(speed.x), y: speed.y.mul_spec(speed.y) }
    }
}

impl FighterKineticEnergyStop {
    /// The velocity is too small to be worth braking.
    pub open spec fn at_rest(self) -> bool {
        self.parent.speed.magnitude_spec().micros < NEGLIGIBLE_SPEED_MICROS
    }

    /// The energy after the air brake. With `speed` for the length that is
    /// braked and `brake` for the brake: where the brake does not exceed the
    /// length, the acceleration takes the velocity down in proportion, by
    /// the factor `(speed - brake) / speed - 1`. Where it does, the mode
    /// `AirBrakeAlways` accelerates by the mirrored velocity snapped toward
    /// zero by `speed_max`, and every other mode stops dead.
    pub open spec fn damage_processed(self, speed: Fixed, brake: Fixed) -> FighterKineticEnergyStop {
        let rest = speed.sub_spec(brake);
        if 0 <= rest.micros {
            let factor = rest.div_spec(speed).sub_spec(Fixed::one_spec());
            FighterKineticEnergyStop {
                parent: KineticEnergy { accel: self.parent.speed.scale_spec(factor), ..self.parent },
                ..self
            }
        } else if self.reset_type is AirBrakeAlways {
            FighterKineticEnergyStop {
                parent: KineticEnergy {
                    accel: PaddedVec2 {
                        x: snapped_spec(self.parent.speed.x.neg_spec(), self.parent.speed_max.x),
                        y: snapped_spec(self.parent.speed.y, self.parent.speed_max.y),
                    },
                    ..self.parent
                },
                ..self
            }
        } else {
            FighterKineticEnergyStop {
                parent: KineticEnergy {
                    accel: PaddedVec2::zeros_spec(),
                    speed: PaddedVec2::zeros_spec(),
                    ..self.parent
                },
                ..self
            }
        }
    }

    /// The energy after the scaling stage: a scaling that was announced on
    /// the previous frame is applied, and one that is requested now is
    /// announced for the next.
    pub open spec fn damage_synced(self, params: StopParameters) -> FighterKineticEnergyStop {
        FighterKineticEnergyStop {
            parent: KineticEnergy {
                speed: if self.needs_to_sync_damage_speed {
                    self.parent.speed.scale_spec(params.damage_sync_speed_mul)
                } else {
                    self.parent.speed
                },
                ..self.parent
            },
            should_sync_damage_speed: false,
            needs_to_sync_damage_speed: self.should_sync_damage_speed,
            ..self
        }
    }

    /// The velocity one interpolation step closer to the target: with `n`
    /// frames left it moves by one `n`-th of what is missing.
    pub open spec fn pulled_speed(self) -> PaddedVec2 {
        let frames = Fixed::from_int_spec(self.interpolation_frames_remaining as i32);
        PaddedVec2 {
            x: self.parent.speed.x.add_spec(
                self.damage_target_speed.x.sub_spec(self.parent.speed.x).div_spec(frames),
            ),
            y: self.parent.speed.y.add_spec(
                self.damage_target_speed.y.sub_spec(self.parent.speed.y).div_spec(frames),
            ),
        }
    }

    /// The energy after the interpolation stage: a running pull takes one
    /// step, and a requested pull is armed with its full number of frames.
    pub open spec fn damage_interpolated(self, params: StopParameters) -> FighterKineticEnergyStop {
        let running = self.interpolation_frames_remaining > 0;
        FighterKineticEnergyStop {
            parent: KineticEnergy {
                speed: if running {
                    self.pulled_speed()
                } else {
                    self.parent.speed
                },
                ..self.parent
            },
            interpolation_frames_remaining: if self.should_start_interpolation {
                params.damage_pull_speed_intp_frame
            } else if running {
                (self.interpolation_frames_remaining - 1) as u8
            } else {
                0
            },
            should_start_interpolation: false,
            ..self
        }
    }

    /// Whether the frame brakes on the ground: the hit has played out, the
    /// mode is not an orbit, and the actor stands on the ground.
    pub open spec fn damage_grounded(self, status: ActorStatus) -> bool {
        !status.speeds_up() && !(self.reset_type is DamageAirOrbit) && status.situation is Ground
    }

    /// The energy after the braking stage. On the ground the brake is the
    /// damped ground brake, the acceleration is zero, the limit is the
    /// damage limit (on both axes while the actor tumbles), and the actor
    /// stops where the ground is touched on the side that its horizontal
    /// speed picks. Off the ground brake and limit are switched off.
    pub open spec fn damage_braked(
        self,
        params: StopParameters,
        status: ActorStatus,
    ) -> FighterKineticEnergyStop {
        if self.damage_grounded(status) {
            FighterKineticEnergyStop {
                parent: KineticEnergy {
                    speed_brake: PaddedVec2 {
                        x: params.ground_brake.mul_spec(params.damage_ground_mul),
                        y: Fixed { micros: 0 },
                    },
                    accel: PaddedVec2::zeros_spec(),
                    speed_limit: PaddedVec2 {
                        x: params.damage_speed_limit,
                        y: if status.status.flying() {
                            params.damage_speed_limit
                        } else {
                            Fixed { micros: 0 }
                        },
                    },
                    speed: if status.touching_on_side_of(self.parent.speed.x) {
                        PaddedVec2::zeros_spec()
                    } else {
                        self.parent.speed
                    },
                    ..self.parent
                },
                ..self
            }
        } else {
            FighterKineticEnergyStop {
                parent: KineticEnergy {
                    speed_brake: PaddedVec2::zeros_spec(),
                    speed_limit: KineticEnergy::no_limit(),
                    ..self.parent
                },
                ..self
            }
        }
    }

    /// The energy after a position target has let go: a velocity longer
    /// than the target's limit is replaced, and the target is cleared.
    pub open spec fn target_released(self, params: StopParameters) -> FighterKineticEnergyStop {
        let magnitude = self.parent.speed.magnitude_spec();
        FighterKineticEnergyStop {
            parent: KineticEnergy {
                speed: if params.damage_target_pos_speed_limit.micros < magnitude.micros {
                    target_limited_spec(self.parent.speed, magnitude)
                } else {
                    self.parent.speed
                },
                ..self.parent
            },
            is_target_pos: false,
            target_pos_frames: 0,
            ..self
        }
    }

    /// The energy after the last two stages. While a position target still
    /// holds, its frame count goes down by one and, off the ground, the air
    /// brake works on a length of zero. Otherwise a target that is due is
    /// released and, off the ground, the air brake works on the length of
    /// the velocity.
    pub open spec fn damage_resolved(
        self,
        params: StopParameters,
        grounded: bool,
    ) -> FighterKineticEnergyStop {
        if self.is_target_pos && self.target_pos_frames > 0 {
            let held = FighterKineticEnergyStop {
                target_pos_frames: (self.target_pos_frames - 1) as u8,
                ..self
            };
            if grounded {
                held
            } else {
                held.damage_processed(Fixed { micros: 0 }, params.damage_air_brake)
            }
        } else {
            let released = if self.is_target_pos {
                self.target_released(params)
            } else {
                self
            };
            if grounded {
                released
            } else {
                released.damage_processed(
                    released.parent.speed.magnitude_spec(),
                    params.damage_air_brake,
                )
            }
        }
    }

    /// The energy after one frame of damage flight. At rest only the
    /// acceleration is set to zero; otherwise the stages run in order.
    pub open spec fn damage_stepped(
        self,
        params: StopParameters,
        status: ActorStatus,
    ) -> FighterKineticEnergyStop {
        if self.at_rest() {
            FighterKineticEnergyStop {
                parent: KineticEnergy { accel: PaddedVec2::zeros_spec(), ..self.parent },
                ..self
            }
        } else {
            let pulled = self.damage_synced(params).damage_interpolated(params);
            pulled.damage_braked(params, status).damage_resolved(
                params,
                pulled.damage_grounded(status),
            )
        }
    }
}

/// Applies the air brake of damage flight to a velocity of length `speed`.
pub fn handle_processing_damage(energy: &mut FighterKineticEnergyStop, speed: Fixed, brake: Fixed)
    ensures
        *final(energy) == old(energy).damage_processed(speed, brake),
{
    let rest = speed.sub(brake);
    if 0 <= rest.micros {
        let factor = rest.div(speed).sub(Fixed::one());
        energy.parent.accel = energy.parent.speed.scale(factor);
    } else if energy.reset_type == EnergyStopResetType::AirBrakeAlways {
        let speed_max = energy.parent.speed_max;
        energy.parent.accel = PaddedVec2::new(
            snapped(energy.parent.speed.x.neg(), speed_max.x),
            snapped(energy.parent.speed.y, speed_max.y),
        );
    } else {
        energy.parent.accel = PaddedVec2::zeros();
        energy.parent.speed = PaddedVec2::zeros();
    }
}

/// Runs the scaling stage of damage flight.
pub fn sync_damage_speed(energy: &mut FighterKineticEnergyStop, params: &StopParameters)
    ensures
        *final(energy) == old(energy).damage_synced(*params),
{
    if energy.needs_to_sync_damage_speed {
        energy.parent.speed = energy.parent.speed.scale(params.damage_sync_speed_mul);
        energy.needs_to_sync_damage_speed = false;
    }
    if energy.should_sync_damage_speed {
        energy.should_sync_damage_speed = false;
        energy.needs_to_sync_damage_speed = true;
    }
}

/// Runs the interpolation stage of damage flight.
pub fn interpolate_damage_speed(energy: &mut FighterKineticEnergyStop, params: &StopParameters)
    ensures
        *final(energy) == old(energy).damage_interpolated(*params),
{
    if energy.interpolation_frames_remaining > 0 {
        let frames = Fixed::from_int(energy.interpolation_frames_remaining as i32);
        let speed = energy.parent.speed;
        let target = energy.damage_target_speed;
        energy.parent.speed = PaddedVec2::new(
            speed.x.add(target.x.sub(speed.x).div(frames)),
            speed.y.add(target.y.sub(speed.y).div(frames)),
        );
        energy.interpolation_frames_remaining = energy.interpolation_frames_remaining - 1;
    }
    if energy.should_start_interpolation {
        energy.interpolation_frames_remaining = params.damage_pull_speed_intp_frame;
        energy.should_start_interpolation = false;
    }
}

/// Runs the braking stage of damage flight and tells whether the frame
/// brakes on the ground.
pub fn brake_damage(
    energy: &mut FighterKineticEnergyStop,
    params: &StopParameters,
    status: &ActorStatus,
) -> (grounded: bool)
    ensures
        grounded == old(energy).damage_grounded(*status),
        *final(energy) == old(energy).damage_braked(*params, *status),
{
    let grounded = !status.is_sped_up() && energy.reset_type
        != EnergyStopResetType::DamageAirOrbit && status.situation == SituationKind::Ground;
    if grounded {
        let brake = params.ground_brake.mul(params.damage_ground_mul);
        energy.parent.speed_brake = PaddedVec2::new(brake, Fixed::zero());
        energy.parent.accel = PaddedVec2::zeros();
        let limit = params.damage_speed_limit;
        if status.status.is_flying() {
            energy.parent.speed_limit = PaddedVec2::new(limit, limit);
        } else {
            energy.parent.speed_limit = PaddedVec2::new(limit, Fixed::zero());
        }
        if status.is_touching_on_side_of(energy.parent.speed.x) {
            energy.parent.speed = PaddedVec2::zeros();
        }
    } else {
        energy.parent.speed_brake = PaddedVec2::zeros();
        energy.parent.speed_limit = KineticEnergy::unlimited();
    }
    grounded
}

/// Lets go of a position target that is due.
pub fn release_target(energy: &mut FighterKineticEnergyStop, params: &StopParameters)
    ensures
        *final(energy) == old(energy).target_released(*params),
{
    let speed = energy.parent.speed;
    let magnitude = speed.magnitude();
    if params.damage_target_pos_speed_limit.micros < magnitude.micros {
        if magnitude.micros != 0 {
            let root = magnitude.sqrt();
            energy.parent.speed = PaddedVec2::new(
                speed.x.mul(speed.x).div(root),
                speed.y.mul(speed.y).div(root),
            );
        } else {
            energy.parent.speed = PaddedVec2::new(speed.x.mul(speed.x), speed.y.mul(speed.y));
        }
    }
    energy.is_target_pos = false;
    energy.target_pos_frames = 0;
}

/// Runs the last two stages of damage flight.
pub fn resolve_damage(
    energy: &mut FighterKineticEnergyStop,
    params: &StopParameters,
    grounded: bool,
)
    ensures
        *final(energy) == old(energy).damage_resolved(*params, grounded),
{
    if energy.is_target_pos {
        if energy.target_pos_frames > 0 {
            energy.target_pos_frames = energy.target_pos_frames - 1;
            if !grounded {
                handle_processing_damage(energy, Fixed::zero(), params.damage_air_brake);
            }
            return ;
        }
        release_target(energy, params);
    }
    if !grounded {
        let magnitude = energy.parent.speed.magnitude();
        handle_processing_damage(energy, magnitude, params.damage_air_brake);
    }
}

/// Advances damage flight by one frame.
pub fn update_damage(
    energy: &mut FighterKineticEnergyStop,
    params: &StopParameters,
    status: &ActorStatus,
)
    ensures
        *final(energy) == old(energy).damage_stepped(*params, *status),
{
    if energy.parent.speed.magnitude().micros < NEGLIGIBLE_SPEED_MICROS {
        energy.parent.accel = PaddedVec2::zeros();
        return ;
    }
    sync_damage_speed(energy, params);
    interpolate_damage_speed(energy, params);
    let grounded = brake_damage(energy, params, status);
    resolve_damage(energy, params, grounded);
}

} // verus!
