//! The knock-back window: a fixed number of frames over which the impulse
//! taken from the attacker is paid out along a cubic curve.

use vstd::prelude::*;
use crate::energy::KineticEnergy;
use crate::fixed::Fixed;
use crate::parameters::{ActorStatus, SituationKind, StopParameters};
use crate::proximity::HUNDREDTH_MICROS;
use crate::stop::FighterKineticEnergyStop;
use crate::vector::PaddedVec2;

verus! {

/// Weight of the curve's early middle term, 1.8.
pub const BLEND_EARLY_MICROS: i64 = 1_800_000;

/// Weight of the curve's late middle term, 2.37.
pub const BLEND_LATE_MICROS: i64 = 2_370_000;

/// `x` times itself.
pub open spec fn square_spec(x: Fixed) -> Fixed {
    x.mul_spec(x)
}

/// `x` times itself twice.
pub open spec fn cube_spec(x: Fixed) -> Fixed {
    x.mul_spec(x).mul_spec(x)
}

/// The distance that the knock-back has covered at `progress` through its
/// window: with `t` for the progress, `u` for `1 - t` and `a` for a
/// hundredth of `rate`, it is `a·u³ + 1.8·t·u² + 2.37·t²·u + t³`, times
/// `overlap`.
pub open spec fn knock_back_curve_spec(rate: Fixed, progress: Fixed, overlap: Fixed) -> Fixed {
    let rest = Fixed::one_spec().sub_spec(progress);
    rate.mul_spec(Fixed { micros: HUNDREDTH_MICROS }).mul_spec(cube_spec(rest)).add_spec(
        Fixed { micros: BLEND_EARLY_MICROS }.mul_spec(progress).mul_spec(square_spec(rest)),
    ).add_spec(
        Fixed { micros: BLEND_LATE_MICROS }.mul_spec(square_spec(progress)).mul_spec(rest),
    ).add_spec(cube_spec(progress)).mul_spec(overlap)
}

/// Evaluates the knock-back curve.
pub fn knock_back_curve(rate: Fixed, progress: Fixed, overlap: Fixed) -> (r: Fixed)
    ensures
        r == knock_back_curve_spec(rate, progress, overlap),
{
    let rest = Fixed::one().sub(progress);
    let rest_squared = rest.mul(rest);
    let progress_squared = progress.mul(progress);
    let first = rate.mul(Fixed::from_micros(HUNDREDTH_MICROS)).mul(rest_squared.mul(rest));
    let second = Fixed::from_micros(BLEND_EARLY_MICROS).mul(progress).mul(rest_squared);
    let third = Fixed::from_micros(BLEND_LATE_MICROS).mul(progress_squared).mul(rest);
    let fourth = progress_squared.mul(progress);
    first.add(second).add(third).add(fourth).mul(overlap)
}

impl FighterKineticEnergyStop {
    /// Whether a knock-back window is open.
    pub open spec fn knock_back_open(self) -> bool {
        self.hitstop_frames.micros > 0
    }

    /// Whether an open window ends on this frame: the actor has left the
    /// ground, or every frame of the window has passed.
    pub open spec fn knock_back_over(self, status: ActorStatus) -> bool {
        !(status.situation is Ground) || self.hitstop_frames.micros
            <= self.elapsed_hitstop_frames.micros
    }

    /// The point on the curve that this frame reaches.
    pub open spec fn knock_back_reach(self, params: StopParameters) -> Fixed {
        knock_back_curve_spec(
            params.damage_knock_back_speed_x_rate,
            self.elapsed_hitstop_frames.div_spec(self.hitstop_frames),
            self.knock_back_overlap,
        )
    }

    /// The energy after one frame of knock-back. Without an open window
    /// nothing changes. A window that is over is closed: the horizontal
    /// speed and the four window fields go to zero. Otherwise the
    /// horizontal speed becomes the step from the previous point on the
    /// curve to this frame's, the previous velocity is kept aside, and the
    /// window moves on by one frame.
    pub open spec fn knock_back_stepped(
        self,
        params: StopParameters,
        status: ActorStatus,
    ) -> FighterKineticEnergyStop {
        if !self.knock_back_open() {
            self
        } else if self.knock_back_over(status) {
            FighterKineticEnergyStop {
                parent: KineticEnergy {
                    speed: PaddedVec2 { x: Fixed { micros: 0 }, y: self.parent.speed.y },
                    ..self.parent
                },
                elapsed_hitstop_frames: Fixed { micros: 0 },
                hitstop_frames: Fixed { micros: 0 },
                knock_back_travelled: Fixed { micros: 0 },
                knock_back_overlap: Fixed { micros: 0 },
                ..self
            }
        } else {
            let reach = self.knock_back_reach(params);
            FighterKineticEnergyStop {
                parent: KineticEnergy {
                    rot_speed: self.parent.speed,
                    speed: PaddedVec2 {
                        x: reach.sub_spec(self.knock_back_travelled),
                        y: self.parent.speed.y,
                    },
                    ..self.parent
                },
                elapsed_hitstop_frames: self.elapsed_hitstop_frames.add_spec(Fixed::one_spec()),
                knock_back_travelled: reach,
                ..self
            }
        }
    }
}

/// Advances the knock-back by one frame.
pub fn update_knock_back(
    energy: &mut FighterKineticEnergyStop,
    params: &StopParameters,
    status: &ActorStatus,
)
    ensures
        *final(energy) == old(energy).knock_back_stepped(*params, *status),
{
    if energy.hitstop_frames.micros <= 0 {
        return ;
    }
    if status.situation != SituationKind::Ground || energy.hitstop_frames.micros
        <= energy.elapsed_hitstop_frames.micros {
        energy.parent.speed.x = Fixed::zero();
        energy.elapsed_hitstop_frames = Fixed::zero();
        energy.hitstop_frames = Fixed::zero();
        energy.knock_back_travelled = Fixed::zero();
        energy.knock_back_overlap = Fixed::zero();
    } else {
        let progress = energy.elapsed_hitstop_frames.div(energy.hitstop_frames);
        let reach = knock_back_curve(
            params.damage_knock_back_speed_x_rate,
            progress,
            energy.knock_back_overlap,
        );
        energy.parent.rot_speed = energy.parent.speed;
        energy.parent.speed = PaddedVec2::new(
            reach.sub(energy.knock_back_travelled),
            energy.parent.speed.y,
        );
        energy.elapsed_hitstop_frames = energy.elapsed_hitstop_frames.add(Fixed::one());
        energy.knock_back_travelled = reach;
    }
}

} // verus!
