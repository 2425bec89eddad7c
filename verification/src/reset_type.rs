//! The discrete reset modes and the families they fall into.

use vstd::prelude::*;
use crate::parameters::SituationKind;

verus! {

/// How the stop energy of an actor resolves its velocity.
#[derive(Debug, Copy, Clone, PartialEq, Eq, Structural)]
pub enum EnergyStopResetType {
    Ground,
    DamageGround,
    DamageAir,
    DamageAirIce,
    DamageOther,
    DamageKnockBack,
    GlidLanding,
    Air,
    AirXNormalMax,
    AirEscape,
    AirBrake,
    AirBrakeAlways,
    GuardDamage,
    Capture,
    CatchCut,
    ItemSwingDash,
    ItemDashThrow,
    SwimBrake,
    Run,
    RunBrake,
    GlidStart,
    CatchDash,
    ShieldRebound,
    Free,
    CaptureBeetle,
    AirLassoHang,
    AirLassoRewind,
    EscapeAirSlide,
    DamageGroundOrbit,
    DamageAirOrbit,
}

/// Number of reset modes.
pub const RESET_TYPE_COUNT: u32 = 30;

impl EnergyStopResetType {
    /// Position of the mode in the declaration order, starting at zero.
    pub open spec fn index_spec(self) -> u32 {
        match self {
            EnergyStopResetType::Ground => 0,
            EnergyStopResetType::DamageGround => 1,
            EnergyStopResetType::DamageAir => 2,
            EnergyStopResetType::DamageAirIce => 3,
            EnergyStopResetType::DamageOther => 4,
            EnergyStopResetType::DamageKnockBack => 5,
            EnergyStopResetType::GlidLanding => 6,
            EnergyStopResetType::Air => 7,
            EnergyStopResetType::AirXNormalMax => 8,
            EnergyStopResetType::AirEscape => 9,
            EnergyStopResetType::AirBrake => 10,
            EnergyStopResetType::AirBrakeAlways => 11,
            EnergyStopResetType::GuardDamage => 12,
            EnergyStopResetType::Capture => 13,
            EnergyStopResetType::CatchCut => 14,
            EnergyStopResetType::ItemSwingDash => 15,
            EnergyStopResetType::ItemDashThrow => 16,
            EnergyStopResetType::SwimBrake => 17,
            EnergyStopResetType::Run => 18,
            EnergyStopResetType::RunBrake => 19,
            EnergyStopResetType::GlidStart => 20,
            EnergyStopResetType::CatchDash => 21,
            EnergyStopResetType::ShieldRebound => 22,
            EnergyStopResetType::Free => 23,
            EnergyStopResetType::CaptureBeetle => 24,
            EnergyStopResetType::AirLassoHang => 25,
            EnergyStopResetType::AirLassoRewind => 26,
            EnergyStopResetType::EscapeAirSlide => 27,
            EnergyStopResetType::DamageGroundOrbit => 28,
            EnergyStopResetType::DamageAirOrbit => 29,
        }
    }

    /// Modes entered on the ground: their entry velocity follows the slope.
    pub open spec fn grounded_entry(self) -> bool {
        self.walk_capable() || self is DamageGround || self is GuardDamage || self is Run
            || self is RunBrake || self is CatchDash || self is ShieldRebound
            || self is DamageGroundOrbit
    }

    /// Grounded modes whose brake depends on whether the entry velocity
    /// exceeds the walking speed.
    pub open spec fn walk_capable(self) -> bool {
        self is Ground || self is CatchCut || self is ItemSwingDash || self is ItemDashThrow
    }

    /// Modes whose velocity follows the running motion.
    pub open spec fn follows_motion(self) -> bool {
        self is ItemSwingDash || self is ItemDashThrow
    }

    /// Whether entering the mode in `situation` derives a knock-back impulse
    /// from the most recent damage: only a knock-back entered on the ground
    /// does.
    pub open spec fn takes_impulse(self, situation: SituationKind) -> bool {
        self is DamageKnockBack && situation is Ground
    }

    /// Modes with the full per-frame damage physics.
    pub open spec fn damage_flight(self) -> bool {
        self is DamageGround || self is DamageAir || self is DamageAirOrbit
    }

    /// Modes that the per-frame update resolves itself.
    pub open spec fn handled_by_update(self) -> bool {
        self.damage_flight() || self is DamageAirIce || self is ShieldRebound || self is AirBrake
            || self is AirBrakeAlways || self is DamageKnockBack || self is AirXNormalMax
            || self.follows_motion() || self is CaptureBeetle
    }

    /// The position of the mode in the declaration order.
    pub fn index(self) -> (r: u32)
        ensures
            r == self.index_spec(),
            r < RESET_TYPE_COUNT,
    {
        match self {
            EnergyStopResetType::Ground => 0,
            EnergyStopResetType::DamageGround => 1,
            EnergyStopResetType::DamageAir => 2,
            EnergyStopResetType::DamageAirIce => 3,
            EnergyStopResetType::DamageOther => 4,
            EnergyStopResetType::DamageKnockBack => 5,
            EnergyStopResetType::GlidLanding => 6,
            EnergyStopResetType::Air => 7,
            EnergyStopResetType::AirXNormalMax => 8,
            EnergyStopResetType::AirEscape => 9,
            EnergyStopResetType::AirBrake => 10,
            EnergyStopResetType::AirBrakeAlways => 11,
            EnergyStopResetType::GuardDamage => 12,
            EnergyStopResetType::Capture => 13,
            EnergyStopResetType::CatchCut => 14,
            EnergyStopResetType::ItemSwingDash => 15,
            EnergyStopResetType::ItemDashThrow => 16,
            EnergyStopResetType::SwimBrake => 17,
            EnergyStopResetType::Run => 18,
            EnergyStopResetType::RunBrake => 19,
            EnergyStopResetType::GlidStart => 20,
            EnergyStopResetType::CatchDash => 21,
            EnergyStopResetType::ShieldRebound => 22,
            EnergyStopResetType::Free => 23,
            EnergyStopResetType::CaptureBeetle => 24,
            EnergyStopResetType::AirLassoHang => 25,
            EnergyStopResetType::AirLassoRewind => 26,
            EnergyStopResetType::EscapeAirSlide => 27,
            EnergyStopResetType::DamageGroundOrbit => 28,
            EnergyStopResetType::DamageAirOrbit => 29,
        }
    }

    /// The mode at position `index`, if there is one.
    pub fn from_index(index: u32) -> (r: Option<EnergyStopResetType>)
        ensures
            r is Some <==> index < RESET_TYPE_COUNT,
            r matches Some(mode) ==> mode.index_spec() == index,
    {
        match index {
            0 => Some(EnergyStopResetType::Ground),
            1 => Some(EnergyStopResetType::DamageGround),
            2 => Some(EnergyStopResetType::DamageAir),
            3 => Some(EnergyStopResetType::DamageAirIce),
            4 => Some(EnergyStopResetType::DamageOther),
            5 => Some(EnergyStopResetType::DamageKnockBack),
            6 => Some(EnergyStopResetType::GlidLanding),
            7 => Some(EnergyStopResetType::Air),
            8 => Some(EnergyStopResetType::AirXNormalMax),
            9 => Some(EnergyStopResetType::AirEscape),
            10 => Some(EnergyStopResetType::AirBrake),
            11 => Some(EnergyStopResetType::AirBrakeAlways),
            12 => Some(EnergyStopResetType::GuardDamage),
            13 => Some(EnergyStopResetType::Capture),
            14 => Some(EnergyStopResetType::CatchCut),
            15 => Some(EnergyStopResetType::ItemSwingDash),
            16 => Some(EnergyStopResetType::ItemDashThrow),
            17 => Some(EnergyStopResetType::SwimBrake),
            18 => Some(EnergyStopResetType::Run),
            19 => Some(EnergyStopResetType::RunBrake),
            20 => Some(EnergyStopResetType::GlidStart),
            21 => Some(EnergyStopResetType::CatchDash),
            22 => Some(EnergyStopResetType::ShieldRebound),
            23 => Some(EnergyStopResetType::Free),
            24 => Some(EnergyStopResetType::CaptureBeetle),
            25 => Some(EnergyStopResetType::AirLassoHang),
            26 => Some(EnergyStopResetType::AirLassoRewind),
            27 => Some(EnergyStopResetType::EscapeAirSlide),
            28 => Some(EnergyStopResetType::DamageGroundOrbit),
            29 => Some(EnergyStopResetType::DamageAirOrbit),
            _ => None,
        }
    }

    /// Whether the entry velocity of the mode follows the slope of the ground.
    pub fn is_grounded_entry(self) -> (r: bool)
        ensures
            r == self.grounded_entry(),
    {
        match self {
            EnergyStopResetType::Ground
            | EnergyStopResetType::CatchCut
            | EnergyStopResetType::ItemSwingDash
            | EnergyStopResetType::ItemDashThrow
            | EnergyStopResetType::DamageGround
            | EnergyStopResetType::GuardDamage
            | EnergyStopResetType::Run
            | EnergyStopResetType::RunBrake
            | EnergyStopResetType::CatchDash
            | EnergyStopResetType::ShieldRebound
            | EnergyStopResetType::DamageGroundOrbit => true,
            _ => false,
        }
    }

    /// Whether the brake of the mode depends on the walking speed.
    pub fn is_walk_capable(self) -> (r: bool)
        ensures
            r == self.walk_capable(),
    {
        match self {
            EnergyStopResetType::Ground
            | EnergyStopResetType::CatchCut
            | EnergyStopResetType::ItemSwingDash
            | EnergyStopResetType::ItemDashThrow => true,
            _ => false,
        }
    }

    /// Whether the velocity of the mode follows the running motion.
    pub fn is_following_motion(self) -> (r: bool)
        ensures
            r == self.follows_motion(),
    {
        match self {
            EnergyStopResetType::ItemSwingDash | EnergyStopResetType::ItemDashThrow => true,
            _ => false,
        }
    }

    /// Whether entering the mode in `situation` derives a knock-back
    /// impulse.
    pub fn is_taking_impulse(self, situation: SituationKind) -> (r: bool)
        ensures
            r == self.takes_impulse(situation),
    {
        match (self, situation) {
            (EnergyStopResetType::DamageKnockBack, SituationKind::Ground) => true,
            _ => false,
        }
    }

    /// Whether the per-frame update resolves the mode itself.
    pub fn is_handled_by_update(self) -> (r: bool)
        ensures
            r == self.handled_by_update(),
    {
        match self {
            EnergyStopResetType::DamageGround
            | EnergyStopResetType::DamageAir
            | EnergyStopResetType::DamageAirOrbit
            | EnergyStopResetType::DamageAirIce
            | EnergyStopResetType::ShieldRebound
            | EnergyStopResetType::AirBrake
            | EnergyStopResetType::AirBrakeAlways
            | EnergyStopResetType::DamageKnockBack
            | EnergyStopResetType::AirXNormalMax
            | EnergyStopResetType::ItemSwingDash
            | EnergyStopResetType::ItemDashThrow
            | EnergyStopResetType::CaptureBeetle => true,
            _ => false,
        }
    }
}

} // verus!
