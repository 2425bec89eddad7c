//! Laws of the stop energy that hold for every energy, every set of
//! tunables and every status of the actor.

use vstd::prelude::*;
use crate::energy::KineticEnergy;
use crate::damage::NEGLIGIBLE_SPEED_MICROS;
use crate::fixed::{
    distance, lemma_div_of_part, lemma_div_one, lemma_mul_minus_one, lemma_mul_one,
    lemma_mul_turns, lemma_mul_zero, lemma_root_exists, lemma_zero_div, root, Fixed,
};
use crate::knock_back::{cube_spec, knock_back_curve_spec, square_spec};
use crate::parameters::{ActorStatus, SetupContext, StopParameters};
use crate::proximity::{overlap_spec, window_spec, HUNDREDTH_MICROS};
use crate::reset_type::EnergyStopResetType;
use crate::stop::{clamped_spec, FighterKineticEnergyStop, UpdateOutcome};
use crate::vector::PaddedVec2;

verus! {

/// The limit carried to the side of a component: the limit itself for a
/// component at or above zero, the negated limit below.
pub open spec fn signed_limit(value: Fixed, limit: Fixed) -> Fixed {
    if value.micros >= 0 {
        limit
    } else {
        limit.neg_spec()
    }
}

/// A component beyond its limit is clamped to exactly the limit with the
/// component's sign; one within its limit is left alone.
pub proof fn law_clamp_is_signed_limit(value: Fixed, limit: Fixed)
    ensures
        limit.micros < value.abs_spec().micros ==> clamped_spec(value, limit) == signed_limit(
            value,
            limit,
        ),
        limit.micros >= value.abs_spec().micros ==> clamped_spec(value, limit) == value,
{
    lemma_mul_one(limit);
    lemma_mul_minus_one(limit);
    assert(Fixed::one_spec().neg_spec() == Fixed { micros: -1_000_000i64 });
}

/// Clamping to a limit that is not negative leaves a component no further
/// from zero than the limit.
pub proof fn law_clamp_bounds(value: Fixed, limit: Fixed)
    requires
        limit.micros >= 0,
    ensures
        clamped_spec(value, limit).abs_spec().micros <= limit.micros,
{
    law_clamp_is_signed_limit(value, limit);
}

/// For every mode that the update does not resolve, the update defers and
/// leaves the energy as it is.
pub proof fn law_unhandled_modes_are_deferred(
    energy: FighterKineticEnergyStop,
    params: StopParameters,
    status: ActorStatus,
)
    requires
        !energy.reset_type.handled_by_update(),
    ensures
        energy.update_outcome(status) == UpdateOutcome::Deferred,
        energy.updated(params, status) == energy,
{
}

/// The update reports a mode as handled exactly when it is one of those it
/// resolves.
pub proof fn law_handled_modes_are_reported(energy: FighterKineticEnergyStop, status: ActorStatus)
    ensures
        energy.update_outcome(status).handled_spec() == energy.reset_type.handled_by_update(),
{
}

/// Entering any mode but `AirLassoRewind`, with tunables whose limits are
/// not negative, leaves the limit either switched off on both axes or with
/// no negative component.
pub proof fn law_setup_limit_is_off_or_non_negative(
    energy: FighterKineticEnergyStop,
    mode: EnergyStopResetType,
    initial_speed: PaddedVec2,
    context: SetupContext,
    params: StopParameters,
)
    requires
        params.limits_non_negative(),
        !(mode is AirLassoRewind),
    ensures
        ({
            let limit = energy.entered(mode, initial_speed, context, params).parent.speed_limit;
            limit == KineticEnergy::no_limit() || (limit.x.micros >= 0 && limit.y.micros >= 0)
        }),
{
}

/// Entering `AirLassoRewind` changes the mode and nothing else.
pub proof fn law_rewind_only_sets_mode(
    energy: FighterKineticEnergyStop,
    initial_speed: PaddedVec2,
    context: SetupContext,
    params: StopParameters,
)
    ensures
        energy.entered(EnergyStopResetType::AirLassoRewind, initial_speed, context, params)
            == (FighterKineticEnergyStop {
            reset_type: EnergyStopResetType::AirLassoRewind,
            ..energy
        }),
{
}

/// Entering a mode leaves every transient flag and counter neutral, and
/// leaves the knock-back window closed unless the mode is a knock-back
/// entered on the ground.
pub proof fn law_setup_clears_scratch(
    energy: FighterKineticEnergyStop,
    mode: EnergyStopResetType,
    initial_speed: PaddedVec2,
    context: SetupContext,
    params: StopParameters,
)
    requires
        !(mode is AirLassoRewind),
    ensures
        ({
            let entered = energy.entered(mode, initial_speed, context, params);
            &&& entered.reset_type == mode
            &&& !entered.should_sync_damage_speed
            &&& !entered.needs_to_sync_damage_speed
            &&& !entered.should_start_interpolation
            &&& entered.interpolation_frames_remaining == 0
            &&& entered.target_pos_frames == 0
            &&& !entered.is_target_pos
            &&& !entered.auxiliary_flag
            &&& entered.elapsed_hitstop_frames.micros == 0
            &&& entered.knock_back_travelled.micros == 0
            &&& !mode.takes_impulse(context.situation) ==> {
                &&& entered.hitstop_frames.micros == 0
                &&& entered.knock_back_overlap.micros == 0
            }
        }),
{
}

/// Initializing twice with the same tunables gives what initializing once
/// gives.
pub proof fn law_initialize_is_idempotent(energy: FighterKineticEnergyStop, params: StopParameters)
    ensures
        energy.initialized(params).initialized(params) == energy.initialized(params),
{
}

/// Initialization touches nothing but the brake and the limit.
pub proof fn law_initialize_keeps_the_rest(energy: FighterKineticEnergyStop, params: StopParameters)
    ensures
        ({
            let after = energy.initialized(params);
            after == (FighterKineticEnergyStop {
                parent: KineticEnergy {
                    speed_brake: after.parent.speed_brake,
                    speed_limit: after.parent.speed_limit,
                    ..energy.parent
                },
                ..energy
            })
        }),
{
}

/// On the ground a horizontal speed beyond the ground limit is clamped to
/// exactly the limit with the speed's sign, and the vertical speed is left
/// alone.
pub proof fn law_ground_clamp(
    energy: FighterKineticEnergyStop,
    params: StopParameters,
    status: ActorStatus,
)
    requires
        status.situation is Ground,
        !status.clamp_exempt,
        params.ground_speed_limit.micros < energy.parent.speed.x.abs_spec().micros,
    ensures
        energy.limited(params, status).parent.speed.x == params.ground_speed_limit.mul_spec(
            energy.parent.speed.x.signum_spec(),
        ),
        energy.limited(params, status).parent.speed.x == signed_limit(
            energy.parent.speed.x,
            params.ground_speed_limit,
        ),
        energy.limited(params, status).parent.speed.y == energy.parent.speed.y,
{
    law_clamp_is_signed_limit(energy.parent.speed.x, params.ground_speed_limit);
}

/// On the ground, with a ground limit that is not negative, the horizontal
/// speed ends no further from zero than the limit.
pub proof fn law_ground_limit_holds(
    energy: FighterKineticEnergyStop,
    params: StopParameters,
    status: ActorStatus,
)
    requires
        status.situation is Ground,
        !status.clamp_exempt,
        params.ground_speed_limit.micros >= 0,
    ensures
        energy.limited(params, status).parent.speed.x.abs_spec().micros
            <= params.ground_speed_limit.micros,
{
    law_clamp_bounds(energy.parent.speed.x, params.ground_speed_limit);
}

/// In the air, with limits that are not negative, each component of the
/// velocity ends no further from zero than its limit.
pub proof fn law_air_limits_hold(
    energy: FighterKineticEnergyStop,
    params: StopParameters,
    status: ActorStatus,
)
    requires
        status.situation is Air,
        !status.clamp_exempt,
        params.common_air_speed_x_limit.micros >= 0,
        params.air_speed_down_limit.micros >= 0,
        params.air_speed_up_limit.micros >= 0,
    ensures
        energy.limited(params, status).parent.speed.x.abs_spec().micros
            <= params.common_air_speed_x_limit.micros,
        energy.limited(params, status).parent.speed.y.abs_spec().micros
            <= energy.vertical_limit(params).micros,
{
    law_clamp_bounds(energy.parent.speed.x, params.common_air_speed_x_limit);
    law_clamp_bounds(energy.parent.speed.y, energy.vertical_limit(params));
}

/// In the air the two axes are clamped independently: the horizontal speed
/// against the common air limit, the vertical speed against the fall limit
/// when it is at or below zero and against the rise limit above.
pub proof fn law_air_clamp(
    energy: FighterKineticEnergyStop,
    params: StopParameters,
    status: ActorStatus,
)
    requires
        status.situation is Air,
        !status.clamp_exempt,
    ensures
        energy.limited(params, status).parent.speed.x == clamped_spec(
            energy.parent.speed.x,
            params.common_air_speed_x_limit,
        ),
        energy.parent.speed.y.micros <= 0 ==> energy.limited(params, status).parent.speed.y
            == clamped_spec(energy.parent.speed.y, params.air_speed_down_limit),
        energy.parent.speed.y.micros > 0 ==> energy.limited(params, status).parent.speed.y
            == clamped_spec(energy.parent.speed.y, params.air_speed_up_limit),
{
}

/// Limiting the speed changes nothing but the velocity, and nothing at all
/// for an exempt actor.
pub proof fn law_limit_touches_only_speed(
    energy: FighterKineticEnergyStop,
    params: StopParameters,
    status: ActorStatus,
)
    ensures
        ({
            let after = energy.limited(params, status);
            after == (FighterKineticEnergyStop {
                parent: KineticEnergy { speed: after.parent.speed, ..energy.parent },
                ..energy
            })
        }),
        status.clamp_exempt ==> energy.limited(params, status) == energy,
{
}

/// At the start of its window the knock-back curve stands at a hundredth
/// of the rate per unit of overlap.
pub proof fn law_curve_starts_at_the_impulse(rate: Fixed, overlap: Fixed)
    ensures
        knock_back_curve_spec(rate, Fixed::zero_spec(), overlap) == rate.mul_spec(
            Fixed { micros: HUNDREDTH_MICROS },
        ).mul_spec(overlap),
{
    let zero = Fixed::zero_spec();
    let one = Fixed::one_spec();
    let a = rate.mul_spec(Fixed { micros: HUNDREDTH_MICROS });
    assert(one.sub_spec(zero) == one);
    lemma_mul_one(one);
    assert(cube_spec(one) == one);
    assert(square_spec(one) == one);
    lemma_mul_one(a);
    lemma_mul_zero(zero);
    assert(square_spec(zero) == zero);
    assert(cube_spec(zero) == zero);
    lemma_mul_zero(Fixed { micros: crate::knock_back::BLEND_EARLY_MICROS });
    lemma_mul_zero(Fixed { micros: crate::knock_back::BLEND_LATE_MICROS });
    lemma_mul_zero(one);
    assert(a.add_spec(zero) == a);
}

/// At the end of its window the knock-back curve stands at the overlap,
/// whatever the rate: the weights of the two middle terms play no part
/// there.
pub proof fn law_curve_ends_at_the_overlap(rate: Fixed, overlap: Fixed)
    ensures
        knock_back_curve_spec(rate, Fixed::one_spec(), overlap) == overlap,
{
    let zero = Fixed::zero_spec();
    let one = Fixed::one_spec();
    let a = rate.mul_spec(Fixed { micros: HUNDREDTH_MICROS });
    assert(one.sub_spec(one) == zero);
    lemma_mul_zero(zero);
    assert(square_spec(zero) == zero);
    assert(cube_spec(zero) == zero);
    lemma_mul_one(one);
    assert(square_spec(one) == one);
    assert(cube_spec(one) == one);
    lemma_mul_zero(a);
    lemma_mul_zero(Fixed { micros: crate::knock_back::BLEND_EARLY_MICROS }.mul_spec(one));
    lemma_mul_zero(Fixed { micros: crate::knock_back::BLEND_LATE_MICROS }.mul_spec(one));
    assert(zero.add_spec(zero) == zero);
    assert(zero.add_spec(one) == one);
    lemma_mul_one(overlap);
}

/// On the first frame of a fresh knock-back window, on the ground, the
/// horizontal speed is a hundredth of the rate per unit of overlap, the
/// previous velocity is kept aside, and one frame has passed.
pub proof fn law_first_knock_back_frame(
    energy: FighterKineticEnergyStop,
    params: StopParameters,
    status: ActorStatus,
)
    requires
        energy.knock_back_open(),
        status.situation is Ground,
        energy.elapsed_hitstop_frames == Fixed::zero_spec(),
        energy.knock_back_travelled == Fixed::zero_spec(),
    ensures
        ({
            let after = energy.knock_back_stepped(params, status);
            &&& after.parent.speed.x == params.damage_knock_back_speed_x_rate.mul_spec(
                Fixed { micros: HUNDREDTH_MICROS },
            ).mul_spec(energy.knock_back_overlap)
            &&& after.knock_back_travelled == after.parent.speed.x
            &&& after.parent.speed.y == energy.parent.speed.y
            &&& after.parent.rot_speed == energy.parent.speed
            &&& after.elapsed_hitstop_frames == Fixed::one_spec()
        }),
{
    lemma_zero_div(energy.hitstop_frames);
    law_curve_starts_at_the_impulse(
        params.damage_knock_back_speed_x_rate,
        energy.knock_back_overlap,
    );
}

/// A knock-back whose window is over is closed: the horizontal speed and
/// the window go to zero, and the next frame changes nothing.
pub proof fn law_knock_back_closes(
    energy: FighterKineticEnergyStop,
    params: StopParameters,
    status: ActorStatus,
)
    requires
        energy.knock_back_open(),
        energy.knock_back_over(status),
    ensures
        ({
            let after = energy.knock_back_stepped(params, status);
            &&& after.parent.speed.x.micros == 0
            &&& !after.knock_back_open()
            &&& after.knock_back_stepped(params, status) == after
        }),
{
}

/// With one frame left, a pull that does not leave the range of the
/// numbers arrives exactly at its target.
pub proof fn law_pull_arrives_on_the_last_frame(energy: FighterKineticEnergyStop)
    requires
        energy.interpolation_frames_remaining == 1,
        i64::MIN <= energy.damage_target_speed.x.micros - energy.parent.speed.x.micros
            <= i64::MAX,
        i64::MIN <= energy.damage_target_speed.y.micros - energy.parent.speed.y.micros
            <= i64::MAX,
    ensures
        energy.pulled_speed() == energy.damage_target_speed,
{
    lemma_div_one(energy.damage_target_speed.x.sub_spec(energy.parent.speed.x));
    lemma_div_one(energy.damage_target_speed.y.sub_spec(energy.parent.speed.y));
}

/// The overlap points out of the attacker: it is not negative for an actor
/// on the attacker's right and not positive for one on its left.
pub proof fn law_overlap_points_away(on_right: bool, pos_x: Fixed, boundary: Fixed)
    ensures
        on_right ==> overlap_spec(on_right, pos_x, boundary).micros >= 0,
        !on_right ==> overlap_spec(on_right, pos_x, boundary).micros <= 0,
{
}

/// A knock-back entered on the ground against a usable attacker opens a
/// window of at least one frame, with nothing of it passed yet.
pub proof fn law_impulse_opens_the_window(
    energy: FighterKineticEnergyStop,
    initial_speed: PaddedVec2,
    context: SetupContext,
    params: StopParameters,
)
    requires
        context.situation is Ground,
        context.contact.impulse(params) is Some,
    ensures
        ({
            let entered = energy.entered(
                EnergyStopResetType::DamageKnockBack,
                initial_speed,
                context,
                params,
            );
            &&& entered.knock_back_open()
            &&& entered.hitstop_frames == window_spec(params, context.contact.hitstop_frames)
            &&& entered.hitstop_frames.micros >= 1_000_000
            &&& entered.elapsed_hitstop_frames.micros == 0
            &&& entered.knock_back_travelled.micros == 0
            &&& entered.parent.speed.y.micros == 0
        }),
{
}

/// An air brake that does not exceed the length it brakes accelerates
/// against the velocity, and by no more than the velocity itself: it slows
/// the actor and never turns it round. Nothing but the acceleration
/// changes.
pub proof fn law_air_brake_slows(energy: FighterKineticEnergyStop, speed: Fixed, brake: Fixed)
    requires
        0 < speed.micros,
        0 <= brake.micros <= speed.micros,
    ensures
        ({
            let after = energy.damage_processed(speed, brake);
            let velocity = energy.parent.speed;
            let accel = after.parent.accel;
            &&& after == (FighterKineticEnergyStop {
                parent: KineticEnergy { accel, ..energy.parent },
                ..energy
            })
            &&& velocity.x.micros >= 0 ==> -velocity.x.micros <= accel.x.micros <= 0
            &&& velocity.x.micros <= 0 ==> 0 <= accel.x.micros <= -velocity.x.micros
            &&& velocity.y.micros >= 0 ==> -velocity.y.micros <= accel.y.micros <= 0
            &&& velocity.y.micros <= 0 ==> 0 <= accel.y.micros <= -velocity.y.micros
        }),
{
    let rest = speed.sub_spec(brake);
    lemma_div_of_part(rest, speed);
    let factor = rest.div_spec(speed).sub_spec(Fixed::one_spec());
    lemma_mul_turns(energy.parent.speed.x, factor);
    lemma_mul_turns(energy.parent.speed.y, factor);
}

/// An energy at rest is slower than the negligible speed on either axis.
pub proof fn law_rest_is_slow_on_both_axes(energy: FighterKineticEnergyStop)
    requires
        energy.at_rest(),
    ensures
        distance(energy.parent.speed.x.micros as int) < NEGLIGIBLE_SPEED_MICROS,
        distance(energy.parent.speed.y.micros as int) < NEGLIGIBLE_SPEED_MICROS,
{
    reveal(PaddedVec2::magnitude_spec);
    let x = energy.parent.speed.x.micros as int;
    let y = energy.parent.speed.y.micros as int;
    assert(x * x >= 0 && y * y >= 0) by (nonlinear_arith);
    lemma_root_exists(x * x + y * y);
    let r = root(x * x + y * y);
    assert(distance(x) < 10 && distance(y) < 10) by (nonlinear_arith)
        requires
            0 <= r < 10,
            x * x + y * y < (r + 1) * (r + 1),
    ;
}

/// Only entering a mode changes the mode: initialization, the update and
/// the limiting of the speed keep it.
pub proof fn law_only_setup_changes_the_mode(
    energy: FighterKineticEnergyStop,
    params: StopParameters,
    status: ActorStatus,
)
    ensures
        energy.initialized(params).reset_type == energy.reset_type,
        energy.updated(params, status).reset_type == energy.reset_type,
        energy.limited(params, status).reset_type == energy.reset_type,
{
}

} // verus!
