//! The stop energy: the velocity state of an actor that is being brought to
//! rest, and the three operations that drive it.
//!
//! `setup_stop` enters a reset mode, `initialize_stop` derives the brake and
//! the limit of the mode from the tunables, and `update_stop` advances the
//! state by one frame. Where a frame needs the simulation's own integration
//! step, `update_stop` says so and `limit_speed` finishes the frame after it.

use vstd::prelude::*;
use crate::energy::KineticEnergy;
use crate::fixed::Fixed;
use crate::damage::update_damage;
use crate::knock_back::update_knock_back;
use crate::parameters::{ActorStatus, SetupContext, SituationKind, StopParameters};
use crate::proximity::{proximity_impulse, KnockBackImpulse};
use crate::reset_type::EnergyStopResetType;
use crate::vector::PaddedVec2;

verus! {

/// The stop energy of one actor.
#[derive(Copy, Clone, Debug, PartialEq, Eq, Structural)]
pub struct FighterKineticEnergyStop {
    pub parent: KineticEnergy,
    /// Velocity that damage interpolation pulls toward.
    pub damage_target_speed: PaddedVec2,
    /// The current reset mode.
    pub reset_type: EnergyStopResetType,
    /// Frames of the knock-back window that have passed.
    pub elapsed_hitstop_frames: Fixed,
    /// Length of the knock-back window; zero when none is open.
    pub hitstop_frames: Fixed,
    /// Value of the knock-back curve on the previous frame.
    pub knock_back_travelled: Fixed,
    /// Overlap with the attacker that the knock-back curve scales.
    pub knock_back_overlap: Fixed,
    pub should_sync_damage_speed: bool,
    pub needs_to_sync_damage_speed: bool,
    pub should_start_interpolation: bool,
    pub interpolation_frames_remaining: u8,
    /// Frames for which a position target still holds the velocity.
    pub target_pos_frames: u8,
    pub is_target_pos: bool,
    pub auxiliary_flag: bool,
    /// The entry velocity was faster than walking.
    pub over_walk_speed: bool,
}

/// What the caller has to do after `update_stop`.
#[derive(Copy, Clone, Debug, PartialEq, Eq, Structural)]
pub enum UpdateOutcome {
    /// The mode is not resolved here and nothing was changed: the caller
    /// falls back on its own behaviour.
    Deferred,
    /// The frame is complete.
    Finished,
    /// The caller runs its integration step on the energy and finishes the
    /// frame with `limit_speed`.
    Integrate,
}

impl UpdateOutcome {
    /// Whether the mode was resolved here.
    pub open spec fn handled_spec(self) -> bool {
        !(self is Deferred)
    }

    /// Whether the mode was resolved here, so that no fallback is needed.
    pub fn handled(self) -> (r: bool)
        ensures
            r == self.handled_spec(),
    {
        match self {
            UpdateOutcome::Deferred => false,
            _ => true,
        }
    }
}

/// A component held to `limit`: where its distance from zero exceeds the
/// limit it becomes the limit with the component's sign.
pub open spec fn clamped_spec(value: Fixed, limit: Fixed) -> Fixed {
    if limit.micros < value.abs_spec().micros {
        limit.mul_spec(value.signum_spec())
    } else {
        value
    }
}

/// Holds a component to `limit`, see `clamped_spec`.
pub fn clamped(value: Fixed, limit: Fixed) -> (r: Fixed)
    ensures
        r == clamped_spec(value, limit),
{
    if limit.micros < value.abs().micros {
        limit.mul(value.signum())
    } else {
        value
    }
}

impl FighterKineticEnergyStop {
    /// Factor on the ground brake for the walk-capable modes.
    pub open spec fn brake_multiplier(self, params: StopParameters) -> Fixed {
        let base = match self.reset_type {
            EnergyStopResetType::CatchCut => params.capture_cut_brake_mul,
            EnergyStopResetType::ItemSwingDash => params.item_dash_swing_brake_mul,
            EnergyStopResetType::ItemDashThrow => params.item_dash_throw_brake_mul,
            _ => Fixed::one_spec(),
        };
        if self.over_walk_speed {
            base.mul_spec(params.stop_over_speed_brake_mul)
        } else {
            base
        }
    }

    /// The horizontal brake that the mode installs, if it installs one.
    pub open spec fn initial_brake(self, params: StopParameters) -> Option<Fixed> {
        match self.reset_type {
            EnergyStopResetType::Ground
            | EnergyStopResetType::CatchCut
            | EnergyStopResetType::ItemSwingDash
            | EnergyStopResetType::ItemDashThrow => Some(
                params.ground_brake.mul_spec(self.brake_multiplier(params)),
            ),
            EnergyStopResetType::DamageGround
            | EnergyStopResetType::GuardDamage
            | EnergyStopResetType::DamageGroundOrbit => Some(
                params.ground_brake.mul_spec(params.damage_ground_mul),
            ),
            EnergyStopResetType::Air | EnergyStopResetType::AirXNormalMax => Some(
                params.air_brake_x,
            ),
            EnergyStopResetType::AirEscape => Some(params.escape_air_brake),
            EnergyStopResetType::RunBrake => Some(
                params.ground_brake.mul_spec(params.run_brake_brake_mul),
            ),
            EnergyStopResetType::CatchDash => Some(
                params.ground_brake.mul_spec(params.catch_dash_brake_mul),
            ),
            EnergyStopResetType::ShieldRebound => Some(
                params.ground_brake.mul_spec(params.shield_rebound_ground_brake),
            ),
            _ => None,
        }
    }

    /// The horizontal limit that the mode installs, if it installs one.
    pub open spec fn initial_limit(self, params: StopParameters) -> Option<Fixed> {
        match self.reset_type {
            EnergyStopResetType::Ground
            | EnergyStopResetType::CatchCut
            | EnergyStopResetType::ItemSwingDash
            | EnergyStopResetType::ItemDashThrow
            | EnergyStopResetType::Run
            | EnergyStopResetType::RunBrake
            | EnergyStopResetType::CatchDash => Some(params.ground_speed_limit),
            EnergyStopResetType::DamageGround
            | EnergyStopResetType::GuardDamage
            | EnergyStopResetType::DamageGroundOrbit
            | EnergyStopResetType::ShieldRebound => Some(params.damage_speed_limit),
            EnergyStopResetType::Air
            | EnergyStopResetType::AirXNormalMax
            | EnergyStopResetType::AirEscape => Some(params.air_speed_x_limit),
            _ => None,
        }
    }

    /// The energy with every scratch field at its neutral value.
    pub open spec fn with_cleared_scratch(self) -> FighterKineticEnergyStop {
        FighterKineticEnergyStop {
            parent: self.parent,
            damage_target_speed: PaddedVec2::zeros_spec(),
            reset_type: self.reset_type,
            elapsed_hitstop_frames: Fixed { micros: 0 },
            hitstop_frames: Fixed { micros: 0 },
            knock_back_travelled: Fixed { micros: 0 },
            knock_back_overlap: Fixed { micros: 0 },
            should_sync_damage_speed: false,
            needs_to_sync_damage_speed: false,
            should_start_interpolation: false,
            interpolation_frames_remaining: 0,
            target_pos_frames: 0,
            is_target_pos: false,
            auxiliary_flag: false,
            over_walk_speed: false,
        }
    }

    /// The knock-back impulse that entering `mode` derives: one is derived
    /// only for a knock-back entered on the ground.
    pub open spec fn entry_impulse(
        mode: EnergyStopResetType,
        context: SetupContext,
        params: StopParameters,
    ) -> Option<KnockBackImpulse> {
        if mode.takes_impulse(context.situation) {
            context.contact.impulse(params)
        } else {
            None
        }
    }

    /// The velocity with which `mode` is entered.
    pub open spec fn entry_speed(
        mode: EnergyStopResetType,
        initial_speed: PaddedVec2,
        context: SetupContext,
        params: StopParameters,
    ) -> PaddedVec2 {
        if mode.grounded_entry() {
            context.ground_adjusted_speed
        } else if mode is EscapeAirSlide {
            initial_speed.scale_spec(params.escape_air_slide_speed)
        } else {
            match Self::entry_impulse(mode, context, params) {
                Some(impulse) => PaddedVec2 { x: impulse.speed_x, y: Fixed { micros: 0 } },
                None => initial_speed,
            }
        }
    }

    /// The brake with which `mode` is entered, before initialization.
    pub open spec fn entry_brake(
        mode: EnergyStopResetType,
        initial_speed: PaddedVec2,
        params: StopParameters,
    ) -> PaddedVec2 {
        if mode is EscapeAirSlide {
            PaddedVec2 {
                x: initial_speed.x.mul_spec(params.escape_air_slide_accel).abs_spec(),
                y: initial_speed.y.mul_spec(params.escape_air_slide_accel).abs_spec(),
            }
        } else {
            PaddedVec2::zeros_spec()
        }
    }

    /// Whether a walk-capable mode is entered faster than walking.
    pub open spec fn entry_over_walk_speed(
        mode: EnergyStopResetType,
        context: SetupContext,
        params: StopParameters,
    ) -> bool {
        mode.walk_capable() && params.walk_speed_max.micros
            < context.ground_adjusted_speed.magnitude_spec().micros
    }

    /// The energy after entering `mode`. Entering `AirLassoRewind` changes
    /// the mode and nothing else. Every other mode starts from a cleared
    /// state: the vectors and the scratch fields are neutral but for what
    /// the mode itself puts there, and brake and limit are initialized.
    pub open spec fn entered(
        self,
        mode: EnergyStopResetType,
        initial_speed: PaddedVec2,
        context: SetupContext,
        params: StopParameters,
    ) -> FighterKineticEnergyStop {
        if mode is AirLassoRewind {
            FighterKineticEnergyStop { reset_type: mode, ..self }
        } else {
            let impulse = Self::entry_impulse(mode, context, params);
            (FighterKineticEnergyStop {
                parent: KineticEnergy {
                    speed: Self::entry_speed(mode, initial_speed, context, params),
                    rot_speed: PaddedVec2::zeros_spec(),
                    accel: PaddedVec2::zeros_spec(),
                    speed_max: PaddedVec2::zeros_spec(),
                    speed_brake: Self::entry_brake(mode, initial_speed, params),
                    speed_limit: KineticEnergy::no_limit(),
                    ..self.parent
                },
                damage_target_speed: if mode is AirLassoHang || mode is EscapeAirSlide {
                    initial_speed
                } else {
                    PaddedVec2::zeros_spec()
                },
                reset_type: mode,
                elapsed_hitstop_frames: Fixed { micros: 0 },
                hitstop_frames: match impulse {
                    Some(impulse) => impulse.hitstop_frames,
                    None => Fixed { micros: 0 },
                },
                knock_back_travelled: Fixed { micros: 0 },
                knock_back_overlap: match impulse {
                    Some(impulse) => impulse.overlap,
                    None => Fixed { micros: 0 },
                },
                should_sync_damage_speed: false,
                needs_to_sync_damage_speed: false,
                should_start_interpolation: false,
                interpolation_frames_remaining: 0,
                target_pos_frames: 0,
                is_target_pos: false,
                auxiliary_flag: false,
                over_walk_speed: Self::entry_over_walk_speed(mode, context, params),
            }).initialized(params)
        }
    }

    /// The energy after one frame of `AirXNormalMax`: the brake is chosen
    /// anew, the air brake up to the stable speed and the fall brake above.
    pub open spec fn air_brake_chosen(self, params: StopParameters) -> FighterKineticEnergyStop {
        FighterKineticEnergyStop {
            parent: KineticEnergy {
                speed_brake: PaddedVec2 {
                    x: if self.parent.speed.x.abs_spec().micros
                        <= params.air_speed_x_stable.micros {
                        params.air_brake_x
                    } else {
                        params.fall_brake_x
                    },
                    y: Fixed { micros: 0 },
                },
                ..self.parent
            },
            ..self
        }
    }

    /// Whether a dash throw has reached the frame from which it brakes
    /// harder.
    pub open spec fn throw_brakes(self, params: StopParameters, status: ActorStatus) -> bool {
        self.reset_type is ItemDashThrow && status.motion_frame.micros > Fixed::from_int_spec(
            params.item_dash_throw_brake_dec_frame,
        ).micros
    }

    /// The energy after one frame of an item dash. Where the motion drives
    /// the velocity, the acceleration is what the velocity lacks to the
    /// motion's, the reference velocity is the negated velocity and the
    /// brake is released. A dash throw past its frame brakes with the
    /// reduced throw brake.
    pub open spec fn dash_stepped(
        self,
        params: StopParameters,
        status: ActorStatus,
    ) -> FighterKineticEnergyStop {
        let brake = if self.throw_brakes(params, status) {
            PaddedVec2 {
                x: params.ground_brake.mul_spec(params.item_dash_throw_brake_mul).mul_spec(
                    params.item_dash_throw_brake_dec,
                ),
                y: Fixed { micros: 0 },
            }
        } else if status.motion_drives_speed {
            PaddedVec2::zeros_spec()
        } else {
            self.parent.speed_brake
        };
        if status.motion_drives_speed {
            FighterKineticEnergyStop {
                parent: KineticEnergy {
                    accel: status.motion_speed.sub_spec(self.parent.speed),
                    speed_max: PaddedVec2 {
                        x: self.parent.speed.x.neg_spec(),
                        y: self.parent.speed.y.neg_spec(),
                    },
                    speed_brake: brake,
                    ..self.parent
                },
                ..self
            }
        } else {
            FighterKineticEnergyStop {
                parent: KineticEnergy { speed_brake: brake, ..self.parent },
                ..self
            }
        }
    }

    /// The energy after one frame of `DamageAirIce`: on the ground the
    /// brake is the damped ground brake, the acceleration is zero and the
    /// limit is the damage limit; off the ground nothing changes.
    pub open spec fn ice_stepped(
        self,
        params: StopParameters,
        status: ActorStatus,
    ) -> FighterKineticEnergyStop {
        if status.situation is Ground {
            FighterKineticEnergyStop {
                parent: KineticEnergy {
                    speed_brake: PaddedVec2 {
                        x: params.damage_ground_mul.mul_spec(params.ground_brake),
                        y: Fixed { micros: 0 },
                    },
                    accel: PaddedVec2::zeros_spec(),
                    speed_limit: PaddedVec2 {
                        x: params.damage_speed_limit,
                        y: Fixed { micros: 0 },
                    },
                    ..self.parent
                },
                ..self
            }
        } else {
            self
        }
    }

    /// The energy after one frame of `CaptureBeetle`: an actor on a capture
    /// link takes the velocity of the actor that holds it.
    pub open spec fn beetle_stepped(self, status: ActorStatus) -> FighterKineticEnergyStop {
        if status.capture_linked {
            FighterKineticEnergyStop {
                parent: KineticEnergy { speed: status.parent_speed, ..self.parent },
                ..self
            }
        } else {
            self
        }
    }

    /// The energy after `update_stop`.
    pub open spec fn updated(
        self,
        params: StopParameters,
        status: ActorStatus,
    ) -> FighterKineticEnergyStop {
        match self.reset_type {
            EnergyStopResetType::DamageGround
            | EnergyStopResetType::DamageAir
            | EnergyStopResetType::DamageAirOrbit => self.damage_stepped(params, status),
            EnergyStopResetType::DamageAirIce => self.ice_stepped(params, status),
            EnergyStopResetType::DamageKnockBack => self.knock_back_stepped(params, status),
            EnergyStopResetType::AirXNormalMax => self.air_brake_chosen(params),
            EnergyStopResetType::ItemSwingDash
            | EnergyStopResetType::ItemDashThrow => self.dash_stepped(params, status),
            EnergyStopResetType::CaptureBeetle => self.beetle_stepped(status),
            _ => self,
        }
    }

    /// What `update_stop` asks of the caller. Modes that are not resolved
    /// here are deferred; the shield rebound, the two air brakes and a
    /// linked capture are complete at once; every other frame goes on to
    /// the integration step.
    pub open spec fn update_outcome(self, status: ActorStatus) -> UpdateOutcome {
        if !self.reset_type.handled_by_update() {
            UpdateOutcome::Deferred
        } else if self.reset_type is ShieldRebound || self.reset_type is AirBrake
            || self.reset_type is AirBrakeAlways || (self.reset_type is CaptureBeetle
            && status.capture_linked) {
            UpdateOutcome::Finished
        } else {
            UpdateOutcome::Integrate
        }
    }

    /// The limit on the vertical speed in the air: the fall limit for a
    /// speed at or below zero, the rise limit above.
    pub open spec fn vertical_limit(self, params: StopParameters) -> Fixed {
        if self.parent.speed.y.micros <= 0 {
            params.air_speed_down_limit
        } else {
            params.air_speed_up_limit
        }
    }

    /// The energy after `limit_speed`. In the air each axis is held to its
    /// own limit, on the ground the horizontal axis is held to the ground
    /// limit, and an actor that is exempt or neither in the air nor on the
    /// ground keeps its velocity.
    pub open spec fn limited(
        self,
        params: StopParameters,
        status: ActorStatus,
    ) -> FighterKineticEnergyStop {
        if status.clamp_exempt {
            self
        } else {
            match status.situation {
                SituationKind::Air => FighterKineticEnergyStop {
                    parent: KineticEnergy {
                        speed: PaddedVec2 {
                            x: clamped_spec(self.parent.speed.x, params.common_air_speed_x_limit),
                            y: clamped_spec(self.parent.speed.y, self.vertical_limit(params)),
                        },
                        ..self.parent
                    },
                    ..self
                },
                SituationKind::Ground => FighterKineticEnergyStop {
                    parent: KineticEnergy {
                        speed: PaddedVec2 {
                            x: clamped_spec(self.parent.speed.x, params.ground_speed_limit),
                            y: self.parent.speed.y,
                        },
                        ..self.parent
                    },
                    ..self
                },
                SituationKind::Other => self,
            }
        }
    }

    /// The energy after initialization: brake and limit are horizontal
    /// vectors of what the mode installs, and stay as they are where the
    /// mode installs nothing.
    pub open spec fn initialized(self, params: StopParameters) -> FighterKineticEnergyStop {
        FighterKineticEnergyStop {
            parent: KineticEnergy {
                speed_brake: match self.initial_brake(params) {
                    Some(brake) => PaddedVec2 { x: brake, y: Fixed { micros: 0 } },
                    None => self.parent.speed_brake,
                },
                speed_limit: match self.initial_limit(params) {
                    Some(limit) => PaddedVec2 { x: limit, y: Fixed { micros: 0 } },
                    None => self.parent.speed_limit,
                },
                ..self.parent
            },
            ..self
        }
    }
}

/// Derives the brake and the limit of the current mode from the tunables.
/// Always reports the mode as handled.
pub fn initialize_stop(energy: &mut FighterKineticEnergyStop, params: &StopParameters) -> (handled:
    bool)
    ensures
        handled,
        *final(energy) == old(energy).initialized(*params),
{
    let ground_limit = PaddedVec2::new(params.ground_speed_limit, Fixed::zero());
    let damage_limit = PaddedVec2::new(params.damage_speed_limit, Fixed::zero());
    let air_limit = PaddedVec2::new(params.air_speed_x_limit, Fixed::zero());
    match energy.reset_type {
        EnergyStopResetType::Ground
        | EnergyStopResetType::CatchCut
        | EnergyStopResetType::ItemSwingDash
        | EnergyStopResetType::ItemDashThrow => {
            let mut multiplier = match energy.reset_type {
                EnergyStopResetType::CatchCut => params.capture_cut_brake_mul,
                EnergyStopResetType::ItemSwingDash => params.item_dash_swing_brake_mul,
                EnergyStopResetType::ItemDashThrow => params.item_dash_throw_brake_mul,
                _ => Fixed::one(),
            };
            if energy.over_walk_speed {
                multiplier = multiplier.mul(params.stop_over_speed_brake_mul);
            }
            energy.parent.speed_brake =
                PaddedVec2::new(params.ground_brake.mul(multiplier), Fixed::zero());
            energy.parent.speed_limit = ground_limit;
        },
        EnergyStopResetType::DamageGround
        | EnergyStopResetType::GuardDamage
        | EnergyStopResetType::DamageGroundOrbit => {
            let brake = params.ground_brake.mul(params.damage_ground_mul);
            energy.parent.speed_brake = PaddedVec2::new(brake, Fixed::zero());
            energy.parent.speed_limit = damage_limit;
        },
        EnergyStopResetType::Air | EnergyStopResetType::AirXNormalMax => {
            energy.parent.speed_limit = air_limit;
            energy.parent.speed_brake = PaddedVec2::new(params.air_brake_x, Fixed::zero());
        },
        EnergyStopResetType::AirEscape => {
            energy.parent.speed_limit = air_limit;
            energy.parent.speed_brake = PaddedVec2::new(params.escape_air_brake, Fixed::zero());
        },
        EnergyStopResetType::Run => {
            energy.parent.speed_limit = ground_limit;
        },
        EnergyStopResetType::RunBrake => {
            let brake = params.ground_brake.mul(params.run_brake_brake_mul);
            energy.parent.speed_brake = PaddedVec2::new(brake, Fixed::zero());
            energy.parent.speed_limit = ground_limit;
        },
        EnergyStopResetType::CatchDash => {
            let brake = params.ground_brake.mul(params.catch_dash_brake_mul);
            energy.parent.speed_brake = PaddedVec2::new(brake, Fixed::zero());
            energy.parent.speed_limit = ground_limit;
        },
        EnergyStopResetType::ShieldRebound => {
            let brake = params.ground_brake.mul(params.shield_rebound_ground_brake);
            energy.parent.speed_brake = PaddedVec2::new(brake, Fixed::zero());
            energy.parent.speed_limit = damage_limit;
        },
        _ => {},
    }
    true
}

/// Enters `reset_type` with `initial_speed`. The caller hands over, in
/// `context`, the initial speed as the ground bends it and what is known of
/// the most recent attacker. Always reports the transition as done.
pub fn setup_stop(
    energy: &mut FighterKineticEnergyStop,
    reset_type: EnergyStopResetType,
    initial_speed: &PaddedVec2,
    context: &SetupContext,
    params: &StopParameters,
) -> (handled: bool)
    ensures
        handled,
        *final(energy) == old(energy).entered(reset_type, *initial_speed, *context, *params),
{
    if reset_type == EnergyStopResetType::AirLassoRewind {
        energy.reset_type = reset_type;
        return true;
    }
    let zeros = PaddedVec2::zeros();
    let no_limit = KineticEnergy::unlimited();
    energy.parent.speed = *initial_speed;
    energy.parent.rot_speed = zeros;
    energy.parent.accel = zeros;
    energy.parent.speed_max = zeros;
    energy.parent.speed_brake = zeros;
    energy.parent.speed_limit = no_limit;
    energy.reset_type = reset_type;
    clear_scratch(energy);

    if reset_type.is_grounded_entry() {
        let adjusted = context.ground_adjusted_speed;
        energy.parent.speed = adjusted;
        if reset_type.is_walk_capable() {
            energy.over_walk_speed = params.walk_speed_max.micros < adjusted.magnitude().micros;
        }
    } else {
        match reset_type {
            EnergyStopResetType::DamageKnockBack => {
                if reset_type.is_taking_impulse(context.situation) {
                    match proximity_impulse(&context.contact, params) {
                        Some(impulse) => {
                            energy.hitstop_frames = impulse.hitstop_frames;
                            energy.knock_back_overlap = impulse.overlap;
                            energy.parent.speed = PaddedVec2::new(impulse.speed_x, Fixed::zero());
                        },
                        None => {},
                    }
                }
            },
            EnergyStopResetType::AirLassoHang => {
                energy.damage_target_speed = *initial_speed;
            },
            EnergyStopResetType::EscapeAirSlide => {
                energy.damage_target_speed = *initial_speed;
                energy.parent.speed = initial_speed.scale(params.escape_air_slide_speed);
                energy.parent.speed_brake = PaddedVec2::new(
                    initial_speed.x.mul(params.escape_air_slide_accel).abs(),
                    initial_speed.y.mul(params.escape_air_slide_accel).abs(),
                );
            },
            _ => {},
        }
    }
    initialize_stop(energy, params);
    true
}

/// Chooses the brake of `AirXNormalMax` for this frame.
pub fn choose_air_brake(energy: &mut FighterKineticEnergyStop, params: &StopParameters)
    ensures
        *final(energy) == old(energy).air_brake_chosen(*params),
{
    let brake = if energy.parent.speed.x.abs().micros <= params.air_speed_x_stable.micros {
        params.air_brake_x
    } else {
        params.fall_brake_x
    };
    energy.parent.speed_brake = PaddedVec2::new(brake, Fixed::zero());
}

/// Advances an item dash by one frame.
pub fn update_dash(
    energy: &mut FighterKineticEnergyStop,
    params: &StopParameters,
    status: &ActorStatus,
)
    ensures
        *final(energy) == old(energy).dash_stepped(*params, *status),
{
    if status.motion_drives_speed {
        let speed = energy.parent.speed;
        energy.parent.speed_max = PaddedVec2::new(speed.x.neg(), speed.y.neg());
        energy.parent.speed_brake = PaddedVec2::zeros();
        energy.parent.accel = status.motion_speed.sub(speed);
    }
    if energy.reset_type == EnergyStopResetType::ItemDashThrow && status.motion_frame.micros
        > Fixed::from_int(params.item_dash_throw_brake_dec_frame).micros {
        let brake = params.ground_brake.mul(params.item_dash_throw_brake_mul).mul(
            params.item_dash_throw_brake_dec,
        );
        energy.parent.speed_brake = PaddedVec2::new(brake, Fixed::zero());
    }
}

/// Advances `DamageAirIce` by one frame.
pub fn update_ice(
    energy: &mut FighterKineticEnergyStop,
    params: &StopParameters,
    status: &ActorStatus,
)
    ensures
        *final(energy) == old(energy).ice_stepped(*params, *status),
{
    if status.situation == SituationKind::Ground {
        let brake = params.damage_ground_mul.mul(params.ground_brake);
        energy.parent.speed_brake = PaddedVec2::new(brake, Fixed::zero());
        energy.parent.accel = PaddedVec2::zeros();
        energy.parent.speed_limit = PaddedVec2::new(params.damage_speed_limit, Fixed::zero());
    }
}

/// Advances the energy by one frame, up to the integration step. A mode
/// that is not resolved here is deferred and the energy is left as it is.
pub fn update_stop(
    energy: &mut FighterKineticEnergyStop,
    params: &StopParameters,
    status: &ActorStatus,
) -> (outcome: UpdateOutcome)
    ensures
        outcome == old(energy).update_outcome(*status),
        *final(energy) == old(energy).updated(*params, *status),
        outcome.handled_spec() == old(energy).reset_type.handled_by_update(),
        !old(energy).reset_type.handled_by_update() ==> *final(energy) == *old(energy),
{
    match energy.reset_type {
        EnergyStopResetType::DamageGround
        | EnergyStopResetType::DamageAir
        | EnergyStopResetType::DamageAirOrbit => {
            update_damage(energy, params, status);
        },
        EnergyStopResetType::DamageAirIce => {
            update_ice(energy, params, status);
        },
        EnergyStopResetType::ShieldRebound
        | EnergyStopResetType::AirBrake
        | EnergyStopResetType::AirBrakeAlways => {
            return UpdateOutcome::Finished;
        },
        EnergyStopResetType::DamageKnockBack => {
            update_knock_back(energy, params, status);
        },
        EnergyStopResetType::AirXNormalMax => {
            choose_air_brake(energy, params);
        },
        EnergyStopResetType::ItemSwingDash | EnergyStopResetType::ItemDashThrow => {
            update_dash(energy, params, status);
        },
        EnergyStopResetType::CaptureBeetle => {
            if status.capture_linked {
                energy.parent.speed = status.parent_speed;
                return UpdateOutcome::Finished;
            }
        },
        _ => {
            return UpdateOutcome::Deferred;
        },
    }
    UpdateOutcome::Integrate
}

/// Finishes a frame after the integration step: holds the velocity to the
/// limits of the actor's situation.
pub fn limit_speed(
    energy: &mut FighterKineticEnergyStop,
    params: &StopParameters,
    status: &ActorStatus,
)
    ensures
        *final(energy) == old(energy).limited(*params, *status),
{
    if status.clamp_exempt {
        return ;
    }
    match status.situation {
        SituationKind::Air => {
            let vertical = if energy.parent.speed.y.micros <= 0 {
                params.air_speed_down_limit
            } else {
                params.air_speed_up_limit
            };
            energy.parent.speed.x = clamped(energy.parent.speed.x, params.common_air_speed_x_limit);
            energy.parent.speed.y = clamped(energy.parent.speed.y, vertical);
        },
        SituationKind::Ground => {
            energy.parent.speed.x = clamped(energy.parent.speed.x, params.ground_speed_limit);
        },
        SituationKind::Other => {},
    }
}

/// Puts every scratch field back to its neutral value.
fn clear_scratch(energy: &mut FighterKineticEnergyStop)
    ensures
        *final(energy) == old(energy).with_cleared_scratch(),
{
    energy.damage_target_speed = PaddedVec2::zeros();
    energy.elapsed_hitstop_frames = Fixed::zero();
    energy.hitstop_frames = Fixed::zero();
    energy.knock_back_travelled = Fixed::zero();
    energy.knock_back_overlap = Fixed::zero();
    energy.should_sync_damage_speed = false;
    energy.needs_to_sync_damage_speed = false;
    energy.should_start_interpolation = false;
    energy.interpolation_frames_remaining = 0;
    energy.target_pos_frames = 0;
    energy.is_target_pos = false;
    energy.auxiliary_flag = false;
    energy.over_walk_speed = false;
}

} // verus!
