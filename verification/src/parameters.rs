//! The tunables and the per-frame facts that the state machine reads.
//!
//! The caller gathers them from the simulation and hands them over as plain
//! values; nothing here looks anything up.

use vstd::prelude::*;
use crate::fixed::Fixed;
use crate::vector::PaddedVec2;

verus! {

/// The tunable parameters of one actor.
#[derive(Copy, Clone, Debug)]
pub struct StopParameters {
    pub ground_brake: Fixed,
    pub walk_speed_max: Fixed,
    pub ground_speed_limit: Fixed,
    pub stop_over_speed_brake_mul: Fixed,
    pub capture_cut_brake_mul: Fixed,
    pub item_dash_swing_brake_mul: Fixed,
    pub item_dash_throw_brake_mul: Fixed,
    pub item_dash_throw_brake_dec: Fixed,
    /// Motion frame after which a dash throw brakes harder.
    pub item_dash_throw_brake_dec_frame: i32,
    pub run_brake_brake_mul: Fixed,
    pub catch_dash_brake_mul: Fixed,
    pub shield_rebound_ground_brake: Fixed,
    pub damage_ground_mul: Fixed,
    pub damage_speed_limit: Fixed,
    pub damage_air_brake: Fixed,
    pub damage_sync_speed_mul: Fixed,
    /// Number of frames over which a damage pull is interpolated.
    pub damage_pull_speed_intp_frame: u8,
    pub damage_target_pos_speed_limit: Fixed,
    /// Length of the knock-back window, in hundredths per logged hitstop frame.
    pub damage_knock_back_hitstop_frame_rate: Fixed,
    /// Strength of the knock-back impulse, in hundredths per unit of overlap.
    pub damage_knock_back_speed_x_rate: Fixed,
    pub air_brake_x: Fixed,
    pub air_speed_x_limit: Fixed,
    pub air_speed_x_stable: Fixed,
    pub fall_brake_x: Fixed,
    pub escape_air_brake: Fixed,
    pub escape_air_slide_speed: Fixed,
    pub escape_air_slide_accel: Fixed,
    pub common_air_speed_x_limit: Fixed,
    pub air_speed_down_limit: Fixed,
    pub air_speed_up_limit: Fixed,
}

impl StopParameters {
    /// None of the limits that initialization installs is negative.
    pub open spec fn limits_non_negative(self) -> bool {
        &&& self.ground_speed_limit.micros >= 0
        &&& self.damage_speed_limit.micros >= 0
        &&& self.air_speed_x_limit.micros >= 0
    }
}

/// Where the actor stands.
#[derive(Copy, Clone, Debug, PartialEq, Eq, Structural)]
pub enum SituationKind {
    Ground,
    Air,
    Other,
}

/// The statuses of the actor that the damage physics tells apart.
#[derive(Copy, Clone, Debug, PartialEq, Eq, Structural)]
pub enum StatusKind {
    Damage,
    DamageAir,
    DamageFly,
    DamageFlyRoll,
    DamageFlyMeteor,
    DamageFlyReflectLr,
    SavingDamage,
    SavingDamageAir,
    SavingDamageFly,
    Bury,
    Other,
}

impl StatusKind {
    /// The actor is reeling from a hit.
    pub open spec fn damage(self) -> bool {
        self is Damage || self is DamageAir || self is DamageFly || self is DamageFlyRoll
            || self is DamageFlyMeteor || self is DamageFlyReflectLr
    }

    /// The actor holds a stored knock-back.
    pub open spec fn saving_knock_back(self) -> bool {
        self is SavingDamage || self is SavingDamageAir || self is Bury
    }

    /// The actor tumbles through the air, so its fall is limited too.
    pub open spec fn flying(self) -> bool {
        self is DamageFly || self is DamageFlyRoll || self is DamageFlyMeteor
            || self is SavingDamageFly
    }

    /// Whether the actor is reeling from a hit.
    pub fn is_damage(self) -> (r: bool)
        ensures
            r == self.damage(),
    {
        match self {
            StatusKind::Damage
            | StatusKind::DamageAir
            | StatusKind::DamageFly
            | StatusKind::DamageFlyRoll
            | StatusKind::DamageFlyMeteor
            | StatusKind::DamageFlyReflectLr => true,
            _ => false,
        }
    }

    /// Whether the actor holds a stored knock-back.
    pub fn is_saving_knock_back(self) -> (r: bool)
        ensures
            r == self.saving_knock_back(),
    {
        match self {
            StatusKind::SavingDamage | StatusKind::SavingDamageAir | StatusKind::Bury => true,
            _ => false,
        }
    }

    /// Whether the actor tumbles through the air.
    pub fn is_flying(self) -> (r: bool)
        ensures
            r == self.flying(),
    {
        match self {
            StatusKind::DamageFly
            | StatusKind::DamageFlyRoll
            | StatusKind::DamageFlyMeteor
            | StatusKind::SavingDamageFly => true,
            _ => false,
        }
    }
}

/// What one frame's update reads of the actor and its surroundings.
#[derive(Copy, Clone, Debug)]
pub struct ActorStatus {
    pub situation: SituationKind,
    pub status: StatusKind,
    /// The actor is marked as sped up by damage.
    pub up_speed_damage: bool,
    /// The hit that caused the damage was electric.
    pub damage_elec: bool,
    /// Frames of hitstop left on the damage status.
    pub hit_stop_frame: i32,
    /// The actor is frozen by a damage stop.
    pub stopped_by_damage: bool,
    /// The ground is touched on the left side.
    pub touching_left: bool,
    /// The ground is touched on the right side.
    pub touching_right: bool,
    /// The running motion drives the velocity this frame.
    pub motion_drives_speed: bool,
    /// The velocity that the running motion asks for.
    pub motion_speed: PaddedVec2,
    /// The frame that the running motion has reached.
    pub motion_frame: Fixed,
    /// The actor hangs on a capture link.
    pub capture_linked: bool,
    /// The summed velocity of the actor at the other end of the link.
    pub parent_speed: PaddedVec2,
    /// The actor is in a state whose speed is never clamped.
    pub clamp_exempt: bool,
}

impl ActorStatus {
    /// Whether damage physics leaves the brake to the hit that is still
    /// playing out.
    pub open spec fn speeds_up(self) -> bool {
        if self.up_speed_damage {
            true
        } else if (self.status.damage() && self.damage_elec) || self.status.saving_knock_back() {
            self.hit_stop_frame != 0
        } else {
            self.stopped_by_damage
        }
    }

    /// The ground contact on the side that a horizontal speed of `speed_x`
    /// picks: the left side for a speed at or below zero, the right side
    /// above.
    pub open spec fn touching_on_side_of(self, speed_x: Fixed) -> bool {
        if speed_x.micros <= 0 {
            self.touching_left
        } else {
            self.touching_right
        }
    }

    /// Whether the hit is still playing out.
    pub fn is_sped_up(&self) -> (r: bool)
        ensures
            r == self.speeds_up(),
    {
        if self.up_speed_damage {
            true
        } else if (self.status.is_damage() && self.damage_elec)
            || self.status.is_saving_knock_back() {
            self.hit_stop_frame != 0
        } else {
            self.stopped_by_damage
        }
    }

    /// The ground contact on the side that `speed_x` picks.
    pub fn is_touching_on_side_of(&self, speed_x: Fixed) -> (r: bool)
        ensures
            r == self.touching_on_side_of(speed_x),
    {
        if speed_x.micros <= 0 {
            self.touching_left
        } else {
            self.touching_right
        }
    }
}

/// The horizontal extent of an actor's jostle area.
#[derive(Copy, Clone, Debug)]
pub struct AreaExtent {
    pub left: Fixed,
    pub right: Fixed,
}

/// What is known of the actor that dealt the most recent damage.
#[derive(Copy, Clone, Debug)]
pub struct Attacker {
    /// The attacker reports itself as gone.
    pub defunct: bool,
    /// The attacker's rank of liveness; ranks of 3 and below are not live.
    pub liveness: u8,
    /// Horizontal position.
    pub pos_x: Fixed,
    /// The jostle area, absent when the attacker has none of its current kind.
    pub area: Option<AreaExtent>,
    /// Horizontal position of the first refining joint, if the model has it.
    pub first_joint_x: Option<Fixed>,
    /// Horizontal position of the second refining joint, if the model has it.
    pub second_joint_x: Option<Fixed>,
}

/// What the knock-back setup reads of the actor and of its attacker.
#[derive(Copy, Clone, Debug)]
pub struct DamageContact {
    /// Horizontal position of the actor itself.
    pub pos_x: Fixed,
    /// The actor has a jostle area of its current kind.
    pub has_area: bool,
    /// Hitstop frames recorded with the most recent damage.
    pub hitstop_frames: i32,
    /// The attacker recorded with the most recent damage, if it still exists.
    pub attacker: Option<Attacker>,
}

/// What a mode change reads of the actor and its surroundings.
#[derive(Copy, Clone, Debug)]
pub struct SetupContext {
    pub situation: SituationKind,
    /// The entry velocity after the ground has bent it along its slope.
    pub ground_adjusted_speed: PaddedVec2,
    pub contact: DamageContact,
}

} // verus!
