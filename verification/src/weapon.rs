//! Weapon system: cooldown-gated projectile creation.
//!
//! Each tick, if the cannon's cooldown reports finished, every fire intent
//! queued since the last unblocked tick yields one projectile at the
//! cannon's world transform, and the cooldown is reset per consumed
//! intent; a burst queued behind a blocked cooldown therefore fires
//! back-to-back in one tick.  If the cooldown is not finished the queue is
//! left alone and nothing is created.  The cooldown then advances by the
//! tick duration unconditionally, even on the tick that reset it.
use vstd::prelude::*;
use vstd::arithmetic::div_mod::{
    lemma_div_multiples_vanish, lemma_fundamental_div_mod, lemma_fundamental_div_mod_converse_div,
    lemma_fundamental_div_mod_converse_mod,
};
use crate::geom::{Vec2, mul_div, mul_div_spec, len_sq_spec};
use crate::entities::{Craft, Projectile, SimError, craft_wf};
use crate::timer::Timer;
use crate::{PROJECTILE_SPEED, UNIT, MAX_TICK_US};

verus! {

/// Horizontal world coordinate of the cannon: the craft's position offset
/// along its forward axis.
pub open spec fn cannon_pos_x(c: Craft) -> int {
    c.pos.x + mul_div_spec(c.forward.x as int, c.cannon.offset as int, UNIT as int)
}

/// Vertical world coordinate of the cannon.
pub open spec fn cannon_pos_y(c: Craft) -> int {
    c.pos.y + mul_div_spec(c.forward.y as int, c.cannon.offset as int, UNIT as int)
}

/// Horizontal projectile velocity: the forward axis scaled to the fixed
/// projectile speed.
pub open spec fn projectile_vel_x(fwd: Vec2) -> int {
    mul_div_spec(fwd.x as int, PROJECTILE_SPEED as int, UNIT as int)
}

/// Vertical projectile velocity.
pub open spec fn projectile_vel_y(fwd: Vec2) -> int {
    mul_div_spec(fwd.y as int, PROJECTILE_SPEED as int, UNIT as int)
}

/// A projectile fired from craft `c` under collider identifier `id` has
/// the cannon's world transform and the forward axis scaled to the fixed
/// projectile speed.
pub open spec fn is_fired_projectile(p: Projectile, c: Craft, id: int) -> bool {
    &&& p.id == id
    &&& p.pos.x == cannon_pos_x(c)
    &&& p.pos.y == cannon_pos_y(c)
    &&& p.vel.x == projectile_vel_x(c.forward)
    &&& p.vel.y == projectile_vel_y(c.forward)
}

/// A forward axis of exactly unit length yields a projectile velocity of
/// exactly the fixed projectile speed.
pub proof fn lemma_projectile_speed(fwd: Vec2)
    requires
        -1000 <= fwd.x <= 1000,
        -1000 <= fwd.y <= 1000,
        len_sq_spec(fwd) == 1_000_000,
    ensures
        projectile_vel_x(fwd) * projectile_vel_x(fwd)
            + projectile_vel_y(fwd) * projectile_vel_y(fwd)
            == (PROJECTILE_SPEED as int) * (PROJECTILE_SPEED as int),
{
    lemma_vel_component_exact(fwd.x as int);
    lemma_vel_component_exact(fwd.y as int);
    assert(mul_div_spec(fwd.x as int, PROJECTILE_SPEED as int, UNIT as int) == fwd.x * 900);
    assert(mul_div_spec(fwd.y as int, PROJECTILE_SPEED as int, UNIT as int) == fwd.y * 900);
    assert((fwd.x * 900) * (fwd.x * 900) + (fwd.y * 900) * (fwd.y * 900)
        == 810_000 * (fwd.x * fwd.x + fwd.y * fwd.y)) by (nonlinear_arith);
    assert(810_000 * (fwd.x * fwd.x + fwd.y * fwd.y) == 810_000 * 1_000_000) by {
        assert(fwd.x * fwd.x + fwd.y * fwd.y == 1_000_000);
    }
    assert(810_000 * 1_000_000 == (PROJECTILE_SPEED as int) * (PROJECTILE_SPEED as int))
        by (nonlinear_arith);
}

/// For any well-formed forward axis -- unit length up to the fixed-point
/// quantization the sampler guarantees -- the projectile speed is the
/// configured speed up to the same quantization: the squared velocity
/// magnitude lies within one part in five hundred of the configured
/// speed squared.
pub proof fn lemma_projectile_speed_tolerance(fwd: Vec2)
    requires
        -1000 <= fwd.x <= 1000,
        -1000 <= fwd.y <= 1000,
        998_000 <= len_sq_spec(fwd) <= 1_000_000,
    ensures
        810_000 * 998_000 <= projectile_vel_x(fwd) * projectile_vel_x(fwd)
            + projectile_vel_y(fwd) * projectile_vel_y(fwd),
        projectile_vel_x(fwd) * projectile_vel_x(fwd)
            + projectile_vel_y(fwd) * projectile_vel_y(fwd)
            <= (PROJECTILE_SPEED as int) * (PROJECTILE_SPEED as int),
{
    lemma_vel_component_exact(fwd.x as int);
    lemma_vel_component_exact(fwd.y as int);
    assert((fwd.x * 900) * (fwd.x * 900) + (fwd.y * 900) * (fwd.y * 900)
        == 810_000 * (fwd.x * fwd.x + fwd.y * fwd.y)) by (nonlinear_arith);
    assert(810_000 * (fwd.x * fwd.x + fwd.y * fwd.y) >= 810_000 * 998_000);
    assert(810_000 * (fwd.x * fwd.x + fwd.y * fwd.y) <= 810_000 * 1_000_000);
    assert(810_000 * 1_000_000 == (PROJECTILE_SPEED as int) * (PROJECTILE_SPEED as int))
        by (nonlinear_arith);
}

/// Scaling a coordinate by the projectile speed divides out exactly.
proof fn lemma_vel_component_exact(a: int)
    ensures
        mul_div_spec(a, PROJECTILE_SPEED as int, UNIT as int) == a * 900,
{
    if a >= 0 {
        lemma_div_multiples_vanish(a * 900, 1000);
        assert(a * 900_000 == 1000 * (a * 900)) by (nonlinear_arith);
    } else {
        lemma_div_multiples_vanish((-a) * 900, 1000);
        assert((-a) * 900_000 == 1000 * ((-a) * 900)) by (nonlinear_arith);
        assert(-((-a) * 900) == a * 900) by (nonlinear_arith);
    }
}

/// Resolve this tick's weapon step for the single craft.
///
/// With the cooldown finished, drains the whole fire-intent queue: one
/// projectile per intent, identifiers counted off from `next_id`, the
/// cooldown reset per consumed intent.  With the cooldown not finished the
/// queue and `next_id` are untouched and no projectile is created.  In
/// both cases the cooldown then advances by `dt`.  Zero or several craft
/// abort the tick with an error and change nothing.
pub fn weapon_tick(
    crafts: &mut Vec<Craft>,
    fire_queue: &mut usize,
    next_id: &mut u64,
    dt: u64,
) -> (r: Result<Vec<Projectile>, SimError>)
    requires
        dt <= MAX_TICK_US,
        forall|i: int| 0 <= i < old(crafts)@.len() ==> craft_wf(#[trigger] old(crafts)@[i]),
        *old(fire_queue) <= 1_000_000,
        *old(next_id) + *old(fire_queue) <= u64::MAX,
    ensures
        old(crafts)@.len() == 0 ==> r == Err::<Vec<Projectile>, SimError>(SimError::NoCraft)
            && final(crafts)@ == old(crafts)@ && *final(fire_queue) == *old(fire_queue)
            && *final(next_id) == *old(next_id),
        old(crafts)@.len() > 1 ==> r == Err::<Vec<Projectile>, SimError>(SimError::MultipleCraft)
            && final(crafts)@ == old(crafts)@ && *final(fire_queue) == *old(fire_queue)
            && *final(next_id) == *old(next_id),
        old(crafts)@.len() == 1 ==> r.is_ok(),
        old(crafts)@.len() == 1 && !old(crafts)@[0].cannon.cooldown.finished_spec() ==> {
            &&& r.unwrap()@.len() == 0
            &&& *final(fire_queue) == *old(fire_queue)
            &&& *final(next_id) == *old(next_id)
            &&& final(crafts)@[0] == (Craft {
                cannon: crate::entities::Cannon {
                    cooldown: old(crafts)@[0].cannon.cooldown.ticked(dt),
                    ..old(crafts)@[0].cannon
                },
                ..old(crafts)@[0]
            })
        },
        old(crafts)@.len() == 1 && old(crafts)@[0].cannon.cooldown.finished_spec() ==> {
            &&& r.unwrap()@.len() == *old(fire_queue)
            &&& *final(fire_queue) == 0
            &&& *final(next_id) == *old(next_id) + *old(fire_queue)
            &&& forall|i: int| 0 <= i < r.unwrap()@.len() ==> is_fired_projectile(
                #[trigger] r.unwrap()@[i],
                old(crafts)@[0],
                *old(next_id) + i,
            )
            &&& final(crafts)@[0] == (Craft {
                cannon: crate::entities::Cannon {
                    cooldown: if *old(fire_queue) > 0 {
                        (Timer { elapsed: 0, fired: false, ..old(crafts)@[0].cannon.cooldown }).ticked(dt)
                    } else {
                        old(crafts)@[0].cannon.cooldown.ticked(dt)
                    },
                    ..old(crafts)@[0].cannon
                },
                ..old(crafts)@[0]
            })
        },
        final(crafts)@.len() == old(crafts)@.len(),
{
    if crafts.len() == 0 {
        return Err(SimError::NoCraft);
    }
    if crafts.len() > 1 {
        return Err(SimError::MultipleCraft);
    }
    let mut craft = crafts[0];
    proof {
        assert(craft_wf(old(crafts)@[0]));
    }
    let mut fired: Vec<Projectile> = Vec::new();
    if craft.cannon.cooldown.finished() {
        proof {
            let fx = craft.forward.x as int;
            let fy = craft.forward.y as int;
            let off = craft.cannon.offset as int;
            assert(fx * off <= 1_000_000_000 && (-fx) * off <= 1_000_000_000
                && fy * off <= 1_000_000_000 && (-fy) * off <= 1_000_000_000)
                by (nonlinear_arith)
                requires -1000 <= fx <= 1000, -1000 <= fy <= 1000, 0 <= off <= 1_000_000;
            assert(fx * (PROJECTILE_SPEED as int) <= 1_000_000_000_000
                && (-fx) * (PROJECTILE_SPEED as int) <= 1_000_000_000_000
                && fy * (PROJECTILE_SPEED as int) <= 1_000_000_000_000
                && (-fy) * (PROJECTILE_SPEED as int) <= 1_000_000_000_000)
                by (nonlinear_arith)
                requires -1000 <= fx <= 1000, -1000 <= fy <= 1000;
        }
        let px = craft.pos.x + mul_div(craft.forward.x, craft.cannon.offset, UNIT);
        let py = craft.pos.y + mul_div(craft.forward.y, craft.cannon.offset, UNIT);
        let vx = mul_div(craft.forward.x, PROJECTILE_SPEED, UNIT);
        let vy = mul_div(craft.forward.y, PROJECTILE_SPEED, UNIT);
        let count = *fire_queue;
        let base = *next_id;
        let mut k: usize = 0;
        while k < count
            invariant
                k <= count,
                count <= 1_000_000,
                base + count <= u64::MAX,
                fired@.len() == k,
                px as int == cannon_pos_x(old(crafts)@[0]),
                py as int == cannon_pos_y(old(crafts)@[0]),
                vx as int == projectile_vel_x(old(crafts)@[0].forward),
                vy as int == projectile_vel_y(old(crafts)@[0].forward),
                forall|i: int| 0 <= i < k ==> is_fired_projectile(
                    #[trigger] fired@[i],
                    old(crafts)@[0],
                    base + i,
                ),
                craft == (Craft {
                    cannon: crate::entities::Cannon {
                        cooldown: if k > 0 {
                            Timer { elapsed: 0, fired: false, ..old(crafts)@[0].cannon.cooldown }
                        } else {
                            old(crafts)@[0].cannon.cooldown
                        },
                        ..old(crafts)@[0].cannon
                    },
                    ..old(crafts)@[0]
                }),
            decreases count - k,
        {
            fired.push(Projectile {
                id: base + (k as u64),
                pos: Vec2 { x: px, y: py },
                vel: Vec2 { x: vx, y: vy },
            });
            craft.cannon.cooldown.reset();
            k = k + 1;
        }
        *next_id = base + (count as u64);
        *fire_queue = 0;
    }
    craft.cannon.cooldown.tick(dt);
    crafts[0] = craft;
    Ok(fired)
}

/// Cooldown elapsed at the start of tick `n` when fire is held every tick
/// and the cooldown starts ready: each tick, a finished cooldown fires
/// and resets to zero, then advances by `dt`, saturating at its duration
/// `d` -- the transformation `weapon_tick` applies to a one-shot cooldown
/// with at least one intent queued.
pub open spec fn held_fire_elapsed(d: int, dt: int, n: nat) -> int
    decreases n,
{
    if n == 0 {
        d
    } else {
        let prev = held_fire_elapsed(d, dt, (n - 1) as nat);
        let after_fire: int = if prev >= d { 0 } else { prev };
        if after_fire + dt >= d {
            d
        } else {
            after_fire + dt
        }
    }
}

/// The weapon fires on tick `n` under held fire.
pub open spec fn held_fire_fires(d: int, dt: int, n: nat) -> bool {
    held_fire_elapsed(d, dt, n) >= d
}

/// Number of firing ticks among the first `n` ticks under held fire.
pub open spec fn held_fire_count(d: int, dt: int, n: nat) -> int
    decreases n,
{
    if n == 0 {
        0
    } else {
        held_fire_count(d, dt, (n - 1) as nat) + (
        if held_fire_fires(d, dt, (n - 1) as nat) {
            1int
        } else {
            0int
        })
    }
}

/// Under held fire, a cooldown that is an exact multiple of the tick
/// cycles with period `c = d / dt`: it reports finished exactly on every
/// `c`-th tick.
proof fn lemma_held_fire_cycle(d: int, dt: int, c: int, n: nat)
    requires
        dt > 0,
        c >= 1,
        d == c * dt,
    ensures
        held_fire_elapsed(d, dt, n) == if (n as int) % c == 0 {
            d
        } else {
            ((n as int) % c) * dt
        },
    decreases n,
{
    if n == 0 {
        lemma_fundamental_div_mod_converse_mod(0, c, 0, 0);
    } else {
        lemma_held_fire_cycle(d, dt, c, (n - 1) as nat);
        lemma_fundamental_div_mod(n as int - 1, c);
        vstd::arithmetic::div_mod::lemma_mod_bound(n as int - 1, c);
        let q = (n as int - 1) / c;
        let m = (n as int - 1) % c;
        assert(n as int - 1 == c * q + m);
        assert(n as int - 1 == q * c + m) by (nonlinear_arith)
            requires n as int - 1 == c * q + m;
        if m + 1 < c {
            lemma_fundamental_div_mod_converse_mod(n as int, c, q, m + 1);
            assert((n as int) % c == m + 1);
        } else {
            assert(m + 1 == c);
            assert(n as int == (q + 1) * c + 0) by (nonlinear_arith)
                requires n - 1 == q * c + m, m + 1 == c;
            lemma_fundamental_div_mod_converse_mod(n as int, c, q + 1, 0);
            assert((n as int) % c == 0);
        }
        let prev = held_fire_elapsed(d, dt, (n - 1) as nat);
        if m == 0 {
            assert(prev == d);
            if c == 1 {
                assert(d == dt);
            } else {
                assert(dt < c * dt) by (nonlinear_arith)
                    requires c >= 2, dt > 0;
                assert(1 * dt == dt) by (nonlinear_arith);
            }
        } else {
            assert(prev == m * dt);
            assert(m * dt < c * dt) by (nonlinear_arith)
                requires 0 <= m < c, dt > 0;
            assert(m * dt + dt == (m + 1) * dt) by (nonlinear_arith);
            if m + 1 < c {
                assert((m + 1) * dt < c * dt) by (nonlinear_arith)
                    requires m + 1 < c, dt > 0;
            }
        }
    }
}

/// Closed form of the firing-tick count under held fire: the number of
/// firings in `n` ticks is the number of multiples of the cycle length
/// below `n`.
proof fn lemma_held_fire_count_formula(d: int, dt: int, c: int, n: nat)
    requires
        dt > 0,
        c >= 1,
        d == c * dt,
    ensures
        held_fire_count(d, dt, n) == ((n as int) + c - 1) / c,
    decreases n,
{
    if n == 0 {
        lemma_fundamental_div_mod_converse_div(c - 1, c, 0, c - 1);
    } else {
        lemma_held_fire_count_formula(d, dt, c, (n - 1) as nat);
        lemma_held_fire_cycle(d, dt, c, (n - 1) as nat);
        lemma_fundamental_div_mod(n as int - 1, c);
        vstd::arithmetic::div_mod::lemma_mod_bound(n as int - 1, c);
        let q = (n as int - 1) / c;
        let m = (n as int - 1) % c;
        assert(n as int - 1 == c * q + m);
        assert(n as int - 1 == q * c + m) by (nonlinear_arith)
            requires n as int - 1 == c * q + m;
        if m == 0 {
            assert(held_fire_fires(d, dt, (n - 1) as nat));
            assert(n - 1 + c - 1 == q * c + (c - 1)) by (nonlinear_arith)
                requires n - 1 == q * c + m, m == 0;
            lemma_fundamental_div_mod_converse_div(n - 1 + c - 1, c, q, c - 1);
            assert(n as int + c - 1 == (q + 1) * c + 0) by (nonlinear_arith)
                requires n - 1 == q * c + m, m == 0;
            lemma_fundamental_div_mod_converse_div(n as int + c - 1, c, q + 1, 0);
        } else {
            assert(m * dt < c * dt) by (nonlinear_arith)
                requires 0 <= m < c, dt > 0;
            assert(m * dt >= dt) by (nonlinear_arith)
                requires m >= 1, dt > 0;
            assert(!held_fire_fires(d, dt, (n - 1) as nat));
            assert(n - 1 + c - 1 == (q + 1) * c + (m - 1)) by (nonlinear_arith)
                requires n - 1 == q * c + m;
            lemma_fundamental_div_mod_converse_div(n - 1 + c - 1, c, q + 1, m - 1);
            assert(n as int + c - 1 == (q + 1) * c + m) by (nonlinear_arith)
                requires n - 1 == q * c + m;
            lemma_fundamental_div_mod_converse_div(n as int + c - 1, c, q + 1, m);
        }
    }
}

/// Across a window of `n` ticks (simulated time `n * dt`) with fire held
/// continuously and the cooldown ready at the start, the number of weapon
/// firings is the window length divided by the cooldown duration, rounded
/// down, or one more -- never further off.  Stated for a cooldown that is
/// an exact multiple of the tick duration; otherwise the leftover slice
/// of each cycle drifts the count by one more tick per accumulated
/// duration.
pub proof fn lemma_held_fire_count_window(d: int, dt: int, n: nat)
    requires
        dt > 0,
        d > 0,
        d % dt == 0,
    ensures
        ((n as int) * dt) / d <= held_fire_count(d, dt, n) <= ((n as int) * dt) / d + 1,
{
    let c = d / dt;
    lemma_fundamental_div_mod(d, dt);
    assert(d == dt * c);
    assert(c >= 1) by (nonlinear_arith)
        requires d == dt * c, d > 0, dt > 0;
    assert(d == c * dt) by (nonlinear_arith)
        requires d == dt * c;
    lemma_held_fire_count_formula(d, dt, c, n);
    lemma_fundamental_div_mod(n as int, c);
    vstd::arithmetic::div_mod::lemma_mod_bound(n as int, c);
    let q = (n as int) / c;
    let m = (n as int) % c;
    assert(n as int == q * c + m);
    assert((n as int) * dt == q * (c * dt) + m * dt) by (nonlinear_arith)
        requires n as int == q * c + m;
    assert(0 <= m * dt < c * dt) by (nonlinear_arith)
        requires 0 <= m < c, dt > 0;
    assert(q >= 0) by (nonlinear_arith)
        requires n as int == q * c + m, 0 <= m < c, c >= 1, n >= 0;
    lemma_fundamental_div_mod_converse_div((n as int) * dt, c * dt, q, m * dt);
    assert(((n as int) * dt) / d == q);
    if m == 0 {
        assert(n as int + c - 1 == (q - 1) * c + (c - 1) + c) by (nonlinear_arith)
            requires n as int == q * c + m, m == 0;
        assert(n as int + c - 1 == q * c + (c - 1)) by (nonlinear_arith)
            requires n as int == q * c + m, m == 0;
        lemma_fundamental_div_mod_converse_div(n as int + c - 1, c, q, c - 1);
    } else {
        assert(n as int + c - 1 == (q + 1) * c + (m - 1)) by (nonlinear_arith)
            requires n as int == q * c + m;
        lemma_fundamental_div_mod_converse_div(n as int + c - 1, c, q + 1, m - 1);
    }
}

/// One weapon step under held fire follows the cadence model: a one-shot
/// cooldown whose elapsed state matches the model at tick `n` reports
/// finished exactly when the model fires, and the cooldown `weapon_tick`
/// leaves behind (reset on fire, then advanced by `dt`) matches the model
/// at tick `n + 1`.
pub proof fn lemma_weapon_step_matches_held_fire(t: Timer, dt: u64, n: nat)
    requires
        t.mode == crate::timer::TimerMode::Once,
        t.wf(),
        dt > 0,
        t.duration + dt <= u64::MAX,
        t.elapsed == held_fire_elapsed(t.duration as int, dt as int, n),
    ensures
        t.finished_spec() == held_fire_fires(t.duration as int, dt as int, n),
        (if t.finished_spec() {
            (Timer { elapsed: 0, fired: false, ..t }).ticked(dt)
        } else {
            t.ticked(dt)
        }).elapsed == held_fire_elapsed(t.duration as int, dt as int, n + 1),
{
    let d = t.duration as int;
    assert(held_fire_elapsed(d, dt as int, (n + 1) as nat) == {
        let prev = held_fire_elapsed(d, dt as int, n);
        let after_fire: int = if prev >= d {
            0
        } else {
            prev
        };
        if after_fire + dt >= d {
            d
        } else {
            after_fire + dt
        }
    });
}

} // verus!
