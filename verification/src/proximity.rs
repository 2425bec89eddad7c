//! The knock-back impulse that an actor takes from the overlap with its
//! attacker.

use vstd::prelude::*;
use crate::fixed::Fixed;
use crate::parameters::{DamageContact, StopParameters};

verus! {

/// One hundredth, the unit of the knock-back rates.
pub const HUNDREDTH_MICROS: i64 = 10_000;

/// The highest rank of liveness that does not count as live.
pub const LAST_LIFELESS_RANK: u8 = 3;

/// What the overlap with the attacker gives the knock-back.
#[derive(Copy, Clone, Debug, PartialEq, Eq, Structural)]
pub struct KnockBackImpulse {
    /// Length of the knock-back window in frames, at least one.
    pub hitstop_frames: Fixed,
    /// Signed distance from the actor to the boundary it has crossed, zero
    /// when it has crossed none.
    pub overlap: Fixed,
    /// Horizontal speed on entry.
    pub speed_x: Fixed,
}

/// The edge of the attacker that the actor is pushed out of: on the right
/// of the attacker the rightmost of its area and its two joints, on the
/// left the leftmost.
pub open spec fn boundary_spec(
    on_right: bool,
    left: Fixed,
    right: Fixed,
    first_joint: Fixed,
    second_joint: Fixed,
) -> Fixed {
    if on_right {
        second_joint.max_spec(first_joint.max_spec(right))
    } else {
        second_joint.min_spec(first_joint.min_spec(left))
    }
}

/// How far the actor at `pos_x` reaches past `boundary`: the distance back
/// to the boundary when it lies inside, zero otherwise.
pub open spec fn overlap_spec(on_right: bool, pos_x: Fixed, boundary: Fixed) -> Fixed {
    let inside = if on_right {
        pos_x.micros < boundary.micros
    } else {
        boundary.micros < pos_x.micros
    };
    if inside {
        boundary.sub_spec(pos_x)
    } else {
        Fixed { micros: 0 }
    }
}

/// Length of the knock-back window for `frames` logged hitstop frames.
pub open spec fn window_spec(params: StopParameters, frames: i32) -> Fixed {
    params.damage_knock_back_hitstop_frame_rate.mul_spec(Fixed { micros: HUNDREDTH_MICROS })
        .mul_spec(Fixed::from_int_spec(frames)).max_spec(Fixed::one_spec())
}

/// Entry speed for an overlap.
pub open spec fn impulse_speed_spec(params: StopParameters, overlap: Fixed) -> Fixed {
    overlap.mul_spec(params.damage_knock_back_speed_x_rate).mul_spec(
        Fixed { micros: HUNDREDTH_MICROS },
    )
}

impl DamageContact {
    /// The impulse of the contact. There is none when the attacker is gone,
    /// defunct or not live, when either actor lacks its jostle area, or
    /// when the attacker's model lacks one of the two joints.
    pub open spec fn impulse(self, params: StopParameters) -> Option<KnockBackImpulse> {
        match self.attacker {
            Some(attacker) => match (
                attacker.area,
                attacker.first_joint_x,
                attacker.second_joint_x,
            ) {
                (Some(area), Some(first_joint), Some(second_joint)) => {
                    if attacker.defunct || attacker.liveness <= LAST_LIFELESS_RANK
                        || !self.has_area {
                        None
                    } else {
                        let on_right = self.pos_x.micros >= attacker.pos_x.micros;
                        let boundary = boundary_spec(
                            on_right,
                            area.left,
                            area.right,
                            first_joint,
                            second_joint,
                        );
                        let overlap = overlap_spec(on_right, self.pos_x, boundary);
                        Some(
                            KnockBackImpulse {
                                hitstop_frames: window_spec(params, self.hitstop_frames),
                                overlap,
                                speed_x: impulse_speed_spec(params, overlap),
                            },
                        )
                    }
                },
                _ => None,
            },
            None => None,
        }
    }
}

/// Derives the knock-back impulse from the contact with the attacker.
pub fn proximity_impulse(contact: &DamageContact, params: &StopParameters) -> (r: Option<
    KnockBackImpulse,
>)
    ensures
        r == contact.impulse(*params),
{
    let attacker = match contact.attacker {
        Some(attacker) => attacker,
        None => {
            return None;
        },
    };
    if attacker.defunct || attacker.liveness <= LAST_LIFELESS_RANK {
        return None;
    }
    if !contact.has_area {
        return None;
    }
    let area = match attacker.area {
        Some(area) => area,
        None => {
            return None;
        },
    };
    let first_joint = match attacker.first_joint_x {
        Some(x) => x,
        None => {
            return None;
        },
    };
    let second_joint = match attacker.second_joint_x {
        Some(x) => x,
        None => {
            return None;
        },
    };
    let on_right = contact.pos_x.micros >= attacker.pos_x.micros;
    let boundary = if on_right {
        second_joint.max(first_joint.max(area.right))
    } else {
        second_joint.min(first_joint.min(area.left))
    };
    let inside = if on_right {
        contact.pos_x.micros < boundary.micros
    } else {
        boundary.micros < contact.pos_x.micros
    };
    let overlap = if inside {
        boundary.sub(contact.pos_x)
    } else {
        Fixed::zero()
    };
    let hundredth = Fixed::from_micros(HUNDREDTH_MICROS);
    let hitstop_frames = params.damage_knock_back_hitstop_frame_rate.mul(hundredth).mul(
        Fixed::from_int(contact.hitstop_frames),
    ).max(Fixed::one());
    let speed_x = overlap.mul(params.damage_knock_back_speed_x_rate).mul(hundredth);
    Some(KnockBackImpulse { hitstop_frames, overlap, speed_x })
}

} // verus!
