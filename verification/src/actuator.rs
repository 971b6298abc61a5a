//! Force actuator: translates the tick's discrete input state into the
//! craft's pending angular and linear impulses, and reports fire intent.
//!
//! Both impulses are overwritten unconditionally every tick; a tick with
//! no held control writes zero.  The torque follows the formula
//! (turn-right − turn-left) × angular gain × tick duration, and is carried
//! in millionths of a unit — a thousand times finer than the linear
//! scale — so the small angular gain survives integer truncation at the
//! nominal tick.  The linear impulse points along the craft's current
//! forward axis, derived from its orientation and not from its velocity.
//! Holding fire emits one fire intent per tick; debouncing is the weapon
//! system's job.
use vstd::prelude::*;
use crate::geom::mul_div;
use crate::geom::mul_div_spec;
use crate::entities::{Craft, InputState, SimError, craft_wf};
use crate::{SPACESHIP_THRUST, SPACESHIP_TORQUE, MAX_TICK_US, MICROS_PER_SEC, UNIT};

verus! {

/// Net turn direction of the torque formula: turn-right counts positive,
/// turn-left negative.  Which rotational sense a positive torque turns is
/// the physics collaborator's convention; this crate fixes the formula
/// only.
pub open spec fn twist_of(input: InputState) -> int {
    (if input.turn_right { 1int } else { 0int }) - (if input.turn_left { 1int } else { 0int })
}

/// Angular impulse for one tick, in millionths of a unit: the net turn
/// direction times the angular gain, scaled by the tick duration in
/// seconds.  At the nominal sixtieth-of-a-second tick this is 833 per
/// held turn key, not zero.
pub open spec fn torque_impulse_spec(input: InputState, dt: int) -> int {
    twist_of(input) * ((SPACESHIP_TORQUE * dt) / (UNIT as int))
}

/// Magnitude of the linear impulse for one tick: the linear gain scaled by
/// the tick duration in seconds, or zero when thrust is not held.
pub open spec fn thrust_gain_spec(input: InputState, dt: int) -> int {
    if input.thrust {
        (SPACESHIP_THRUST * dt) / (MICROS_PER_SEC as int)
    } else {
        0
    }
}

/// Read the input state and overwrite the single craft's pending impulses
/// for this tick.  Returns whether a fire intent was emitted, or an error
/// when zero or several craft exist.  Positions, forces and the cannon are
/// untouched; the physics collaborator moves the craft at tick end.
pub fn actuate(crafts: &mut Vec<Craft>, input: InputState, dt: u64) -> (r: Result<bool, SimError>)
    requires
        dt <= MAX_TICK_US,
        forall|i: int| 0 <= i < old(crafts)@.len() ==> craft_wf(#[trigger] old(crafts)@[i]),
    ensures
        old(crafts)@.len() == 0 ==> r == Err::<bool, SimError>(SimError::NoCraft)
            && final(crafts)@ == old(crafts)@,
        old(crafts)@.len() > 1 ==> r == Err::<bool, SimError>(SimError::MultipleCraft)
            && final(crafts)@ == old(crafts)@,
        old(crafts)@.len() == 1 ==> {
            &&& r == Ok::<bool, SimError>(input.fire)
            &&& final(crafts)@.len() == 1
            &&& final(crafts)@[0].pos == old(crafts)@[0].pos
            &&& final(crafts)@[0].forward == old(crafts)@[0].forward
            &&& final(crafts)@[0].force == old(crafts)@[0].force
            &&& final(crafts)@[0].cannon == old(crafts)@[0].cannon
            &&& final(crafts)@[0].torque_impulse == torque_impulse_spec(input, dt as int)
            &&& final(crafts)@[0].impulse.x == mul_div_spec(
                old(crafts)@[0].forward.x as int,
                thrust_gain_spec(input, dt as int),
                UNIT as int,
            )
            &&& final(crafts)@[0].impulse.y == mul_div_spec(
                old(crafts)@[0].forward.y as int,
                thrust_gain_spec(input, dt as int),
                UNIT as int,
            )
        },
{
    if crafts.len() == 0 {
        return Err(SimError::NoCraft);
    }
    if crafts.len() > 1 {
        return Err(SimError::MultipleCraft);
    }
    let mut craft = crafts[0];

    let torque_gain: i64 = SPACESHIP_TORQUE * (dt as i64) / UNIT;
    let twist: i64 = (if input.turn_right { 1i64 } else { 0i64 })
        - (if input.turn_left { 1i64 } else { 0i64 });
    proof {
        assert(0 <= torque_gain <= 50_000);
        assert(-50_000 <= twist * torque_gain <= 50_000) by (nonlinear_arith)
            requires -1 <= twist <= 1, 0 <= torque_gain <= 50_000;
    }
    craft.torque_impulse = twist * torque_gain;

    let thrust_gain: i64 = if input.thrust {
        SPACESHIP_THRUST * (dt as i64) / 1_000_000
    } else {
        0
    };
    proof {
        assert(craft_wf(old(crafts)@[0]));
        assert(0 <= thrust_gain <= 2000);
        let fx = craft.forward.x as int;
        let fy = craft.forward.y as int;
        let g = thrust_gain as int;
        assert(fx * g <= 2_000_000 && (-fx) * g <= 2_000_000
            && fy * g <= 2_000_000 && (-fy) * g <= 2_000_000) by (nonlinear_arith)
            requires -1000 <= fx <= 1000, -1000 <= fy <= 1000, 0 <= g <= 2000;
    }
    craft.impulse.x = mul_div(craft.forward.x, thrust_gain, UNIT);
    craft.impulse.y = mul_div(craft.forward.y, thrust_gain, UNIT);

    crafts[0] = craft;
    Ok(input.fire)
}

} // verus!
