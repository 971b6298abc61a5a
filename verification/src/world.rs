//! The per-tick simulation pipeline over the shared snapshot.
//!
//! All components run synchronously once per fixed tick, in a fixed
//! order: actuation before weapon resolution, spawn production before
//! spawn consumption, gravity before the physics collaborator integrates,
//! contact resolution on the contacts the collaborator produced for this
//! tick.  Exactly one component writes each field per tick.
//!
//! Fire-intent events live one tick: whatever the weapon does not consume
//! this tick has expired by the next.  Several intents may still be queued
//! within one tick by an upstream producer, and an unblocked cooldown
//! then fires once per queued intent.
//!
//! The physics collaborator owns motion: it integrates the pending
//! impulses and forces written here and moves the bodies between ticks;
//! this pipeline never changes a position.
use vstd::prelude::*;
use crate::actuator::{actuate, torque_impulse_spec, thrust_gain_spec};
use crate::contact::{ContactEvent, resolve_contacts, surviving};
use crate::entities::{
    Asteroid, Cannon, Craft, GravityWell, InputState, SimError, asteroid_wf, craft_wf, well_wf,
};
use crate::geom::{Vec2, mul_div_spec};
use crate::gravity::{force_after_wells, gravity_force};
use crate::sampler::Sampler;
use crate::spawner::{
    SpawnEvent, SpawnRanges, asteroid_from_event, event_within_ranges, heading_len, ranges_valid,
    spawner_tick, standard_ranges, standard_ranges_spec,
};
use crate::timer::{Timer, TimerMode};
use crate::weapon::{is_fired_projectile, weapon_tick};
use crate::entities::Projectile;
use crate::{
    ASTEROID_PERIOD_US, CANNON_COOLDOWN_US, CANNON_OFFSET, MAX_TICK_US, PLANET_GRAVITY,
    PLANET_MAX_RADIUS, SPAWN_JITTER_MAX_US, UNIT,
};

verus! {

/// The whole simulation snapshot one tick reads and writes.
pub struct World {
    /// The controlled craft; exactly one is expected.
    pub crafts: Vec<Craft>,
    /// Live projectiles.
    pub projectiles: Vec<Projectile>,
    /// Live hostile bodies.
    pub asteroids: Vec<Asteroid>,
    /// Static attraction sources.
    pub wells: Vec<GravityWell>,
    /// Cadence of asteroid spawning.
    pub spawn_timer: Timer,
    /// Process-scoped random state, passed explicitly.
    pub sampler: Sampler,
    /// Spawn sampling configuration.
    pub ranges: SpawnRanges,
    /// Fire intents queued for this tick; whatever survives the weapon
    /// step expires at tick end.
    pub fire_queue: usize,
    /// Next collider identifier to hand out.
    pub next_id: u64,
}

/// What one tick produced.
#[derive(Debug)]
pub struct TickReport {
    /// The projectiles created this tick, in firing order.
    pub fired: Vec<Projectile>,
    /// The spawn event emitted this tick, if the cadence fired.
    pub spawned: Option<SpawnEvent>,
}

/// Every entity's fields lie in the ranges the fixed-point arithmetic is
/// proved for, and the spawner configuration is valid.
pub open spec fn world_wf(w: World) -> bool {
    &&& forall|i: int| 0 <= i < w.crafts@.len() ==> craft_wf(#[trigger] w.crafts@[i])
    &&& forall|i: int| 0 <= i < w.asteroids@.len() ==> asteroid_wf(#[trigger] w.asteroids@[i])
    &&& forall|i: int| 0 <= i < w.wells@.len() ==> well_wf(#[trigger] w.wells@[i])
    &&& w.spawn_timer.wf()
    &&& w.spawn_timer.mode == TimerMode::Repeating
    &&& w.spawn_timer.duration <= 100_000_000_000
    &&& ranges_valid(w.ranges)
}

impl World {
    /// Assemble the simulation the game starts with: one craft facing up
    /// with a ready cannon, one planetary well at the field center, no
    /// projectile and no asteroid yet, and the spawn cadence at zero.
    pub fn new(seed: u64) -> (w: World)
        ensures
            world_wf(w),
            w.crafts@.len() == 1,
            w.crafts@[0] == (Craft {
                pos: Vec2 { x: -375_000i64, y: 0 },
                forward: Vec2 { x: 0, y: 1000 },
                impulse: Vec2 { x: 0, y: 0 },
                torque_impulse: 0,
                force: Vec2 { x: 0, y: 0 },
                cannon: Cannon {
                    offset: CANNON_OFFSET,
                    cooldown: Timer {
                        duration: CANNON_COOLDOWN_US,
                        elapsed: CANNON_COOLDOWN_US,
                        mode: TimerMode::Once,
                        fired: false,
                    },
                },
            }),
            w.projectiles@.len() == 0,
            w.asteroids@.len() == 0,
            w.wells@.len() == 1,
            w.wells@[0] == (GravityWell {
                pos: Vec2 { x: 0, y: 0 },
                intensity: PLANET_GRAVITY,
                max_radius: PLANET_MAX_RADIUS,
            }),
            w.spawn_timer == (Timer {
                duration: ASTEROID_PERIOD_US,
                elapsed: 0,
                mode: TimerMode::Repeating,
                fired: false,
            }),
            w.sampler.state == seed,
            w.ranges == standard_ranges_spec(),
            w.fire_queue == 0,
            w.next_id == 1,
    {
        let crafts = vec![Craft {
            pos: Vec2 { x: -375_000, y: 0 },
            forward: Vec2 { x: 0, y: 1000 },
            impulse: Vec2 { x: 0, y: 0 },
            torque_impulse: 0,
            force: Vec2 { x: 0, y: 0 },
            cannon: Cannon {
                offset: CANNON_OFFSET,
                cooldown: Timer::new_finished(CANNON_COOLDOWN_US),
            },
        }];
        let wells = vec![GravityWell {
            pos: Vec2 { x: 0, y: 0 },
            intensity: PLANET_GRAVITY,
            max_radius: PLANET_MAX_RADIUS,
        }];
        World {
            crafts,
            projectiles: Vec::new(),
            asteroids: Vec::new(),
            wells,
            spawn_timer: Timer::new(ASTEROID_PERIOD_US, TimerMode::Repeating),
            sampler: Sampler::new(seed),
            ranges: standard_ranges(),
            fire_queue: 0,
            next_id: 1,
        }
    }

    /// Run one fixed tick: actuation, weapon, spawn production and
    /// consumption, gravity, contact resolution, in that order.
    ///
    /// `contacts` are the contact events the physics collaborator
    /// produced for this tick; `dt` is the fixed tick duration in
    /// microseconds.  Zero or several craft abort the tick with an error
    /// and change nothing.
    pub fn tick(&mut self, input: InputState, contacts: &Vec<ContactEvent>, dt: u64) -> (r:
        Result<TickReport, SimError>)
        requires
            world_wf(*old(self)),
            dt <= MAX_TICK_US,
            old(self).fire_queue < 1_000_000,
            old(self).next_id + old(self).fire_queue + 2 <= u64::MAX,
        ensures
            old(self).crafts@.len() == 0 ==> r == Err::<TickReport, SimError>(SimError::NoCraft)
                && unchanged_world(*old(self), *final(self)),
            old(self).crafts@.len() > 1 ==> r == Err::<TickReport, SimError>(
                SimError::MultipleCraft,
            ) && unchanged_world(*old(self), *final(self)),
            old(self).crafts@.len() == 1 ==> tick_post(
                *old(self),
                *final(self),
                r,
                input,
                contacts@,
                dt,
            ),
            world_wf(*final(self)),
    {
        let intent = match actuate(&mut self.crafts, input, dt) {
            Ok(f) => f,
            Err(e) => {
                return Err(e);
            },
        };
        if intent {
            self.fire_queue = self.fire_queue + 1;
        }
        let fired = match weapon_tick(&mut self.crafts, &mut self.fire_queue, &mut self.next_id, dt) {
            Ok(v) => v,
            Err(e) => {
                return Err(e);
            },
        };
        self.fire_queue = 0;
        let ghost snap = *self;
        let ghost base_len = self.projectiles@.len() as int;
        let ghost mid_projectiles = self.projectiles@ + fired@;
        let mut k: usize = 0;
        while k < fired.len()
            invariant
                k <= fired@.len(),
                mid_projectiles == snap.projectiles@ + fired@,
                base_len == snap.projectiles@.len(),
                self.projectiles@ == mid_projectiles.take(base_len + k),
                self.crafts == snap.crafts,
                self.asteroids == snap.asteroids,
                self.wells == snap.wells,
                self.spawn_timer == snap.spawn_timer,
                self.sampler == snap.sampler,
                self.ranges == snap.ranges,
                self.fire_queue == snap.fire_queue,
                self.next_id == snap.next_id,
            decreases fired@.len() - k,
        {
            proof {
                assert(mid_projectiles.take(base_len + k + 1)
                    =~= mid_projectiles.take(base_len + k).push(fired@[k as int]));
            }
            let p = fired[k];
            self.projectiles.push(p);
            k = k + 1;
        }
        proof {
            assert(mid_projectiles.take(mid_projectiles.len() as int) =~= mid_projectiles);
            assert(self.projectiles@ == mid_projectiles);
        }

        let ev = spawner_tick(&mut self.spawn_timer, &mut self.sampler, &self.ranges, dt);
        if let Some(e) = &ev {
            let a = asteroid_from_event(e, &self.ranges, self.next_id);
            self.next_id = self.next_id + 1;
            proof {
                assert(-(self.ranges.spawn_radius as int) <= a.pos.x
                    <= self.ranges.spawn_radius as int);
                assert(asteroid_wf(a));
            }
            self.asteroids.push(a);
        }

        let mut c = self.crafts[0];
        let cf = gravity_force(&self.wells, c.pos, c.force, dt);
        c.force = cf;
        self.crafts[0] = c;

        let ghost snap2 = *self;
        let ghost mid_asteroids = self.asteroids@;
        let mut i: usize = 0;
        while i < self.asteroids.len()
            invariant
                i <= self.asteroids@.len(),
                mid_asteroids == snap2.asteroids@,
                self.asteroids@.len() == mid_asteroids.len(),
                forall|j: int| 0 <= j < mid_asteroids.len() ==> asteroid_wf(
                    #[trigger] mid_asteroids[j],
                ),
                forall|j: int| 0 <= j < self.wells@.len() ==> well_wf(#[trigger] self.wells@[j]),
                dt <= MAX_TICK_US,
                forall|j: int| i <= j < mid_asteroids.len() ==> self.asteroids@[j]
                    == mid_asteroids[j],
                forall|j: int| 0 <= j < i ==> gravity_applied(
                    #[trigger] self.asteroids@[j],
                    mid_asteroids[j],
                    self.wells@,
                    dt as int,
                ),
                self.crafts == snap2.crafts,
                self.projectiles == snap2.projectiles,
                self.wells == snap2.wells,
                self.spawn_timer == snap2.spawn_timer,
                self.sampler == snap2.sampler,
                self.ranges == snap2.ranges,
                self.fire_queue == snap2.fire_queue,
                self.next_id == snap2.next_id,
            decreases self.asteroids@.len() - i,
        {
            let a = self.asteroids[i];
            proof {
                assert(a == mid_asteroids[i as int]);
                assert(asteroid_wf(mid_asteroids[i as int]));
            }
            let f = gravity_force(&self.wells, a.pos, a.force, dt);
            let updated = Asteroid { force: f, ..a };
            self.asteroids[i] = updated;
            i = i + 1;
        }

        resolve_contacts(contacts, &self.asteroids, &mut self.projectiles);
        Ok(TickReport { fired, spawned: ev })
    }
}

/// Nothing observable about the snapshot changed: an aborted tick leaves
/// the world as it was.
pub open spec fn unchanged_world(old_w: World, new_w: World) -> bool {
    &&& new_w.crafts@ == old_w.crafts@
    &&& new_w.projectiles@ == old_w.projectiles@
    &&& new_w.asteroids@ == old_w.asteroids@
    &&& new_w.wells@ == old_w.wells@
    &&& new_w.spawn_timer == old_w.spawn_timer
    &&& new_w.sampler == old_w.sampler
    &&& new_w.ranges == old_w.ranges
    &&& new_w.fire_queue == old_w.fire_queue
    &&& new_w.next_id == old_w.next_id
}

/// The asteroid `now` is `before` with this tick's gravity written to its
/// pending force.
pub open spec fn gravity_applied(
    now: Asteroid,
    before: Asteroid,
    wells: Seq<GravityWell>,
    dt: int,
) -> bool {
    let f = force_after_wells(wells, before.pos, (before.force.x as int, before.force.y as int), dt);
    &&& now.id == before.id
    &&& now.pos == before.pos
    &&& now.vel == before.vel
    &&& now.radius == before.radius
    &&& now.force.x as int == f.0
    &&& now.force.y as int == f.1
}

/// What a completed tick guarantees, given the single craft `old_w.crafts[0]`.
pub open spec fn tick_post(
    old_w: World,
    new_w: World,
    r: Result<TickReport, SimError>,
    input: InputState,
    contacts: Seq<ContactEvent>,
    dt: u64,
) -> bool {
    let c0 = old_w.crafts@[0];
    let queue0 = old_w.fire_queue + (if input.fire { 1int } else { 0int });
    let cd_fin = c0.cannon.cooldown.finished_spec();
    let sp_fin = old_w.spawn_timer.finished_spec();
    let fired_n = if cd_fin { queue0 } else { 0int };
    let rep = r.unwrap();
    &&& r.is_ok()
    // weapon: cooldown gating and the fired projectiles
    &&& rep.fired@.len() == fired_n
    &&& forall|i: int| 0 <= i < rep.fired@.len() ==> is_fired_projectile(
        #[trigger] rep.fired@[i],
        c0,
        old_w.next_id + i,
    )
    &&& new_w.projectiles@ == surviving(
        old_w.projectiles@ + rep.fired@,
        contacts,
        new_w.asteroids@,
    )
    // spawner: production gated by the cadence, consumption appends one body
    &&& rep.spawned.is_some() <==> sp_fin
    &&& rep.spawned.is_some() ==> event_within_ranges(rep.spawned.unwrap(), old_w.ranges)
    &&& new_w.asteroids@.len() == old_w.asteroids@.len() + (if sp_fin { 1int } else { 0int })
    &&& forall|i: int| 0 <= i < old_w.asteroids@.len() ==> gravity_applied(
        #[trigger] new_w.asteroids@[i],
        old_w.asteroids@[i],
        old_w.wells@,
        dt as int,
    )
    &&& sp_fin ==> spawned_asteroid_matches(
        new_w.asteroids@.last(),
        rep.spawned.unwrap(),
        old_w.next_id + fired_n,
        old_w.wells@,
        dt as int,
    )
    // craft: actuation overwrites the impulses, gravity the force
    &&& new_w.crafts@.len() == 1
    &&& new_w.crafts@[0].pos == c0.pos
    &&& new_w.crafts@[0].forward == c0.forward
    &&& new_w.crafts@[0].torque_impulse == torque_impulse_spec(input, dt as int)
    &&& new_w.crafts@[0].impulse.x == mul_div_spec(
        c0.forward.x as int,
        thrust_gain_spec(input, dt as int),
        UNIT as int,
    )
    &&& new_w.crafts@[0].impulse.y == mul_div_spec(
        c0.forward.y as int,
        thrust_gain_spec(input, dt as int),
        UNIT as int,
    )
    &&& (new_w.crafts@[0].force.x as int, new_w.crafts@[0].force.y as int) == force_after_wells(
        old_w.wells@,
        c0.pos,
        (c0.force.x as int, c0.force.y as int),
        dt as int,
    )
    &&& new_w.crafts@[0].cannon.cooldown == (if cd_fin && queue0 > 0 {
        (Timer { elapsed: 0, fired: false, ..c0.cannon.cooldown }).ticked(dt)
    } else {
        c0.cannon.cooldown.ticked(dt)
    })
    // cadence: the spawn timer advanced by the tick duration plus jitter
    &&& exists|j: u64|
        0 <= j < SPAWN_JITTER_MAX_US && new_w.spawn_timer == old_w.spawn_timer.ticked(
            #[trigger] ((dt + j) as u64),
        )
    // queues and identifiers
    &&& new_w.fire_queue == 0
    &&& new_w.next_id == old_w.next_id + fired_n + (if sp_fin { 1int } else { 0int })
    &&& new_w.wells@ == old_w.wells@
    &&& new_w.ranges == old_w.ranges
}

/// The asteroid appended this tick matches its spawn event, carries the
/// next identifier, and felt this tick's gravity from a zero prior force.
pub open spec fn spawned_asteroid_matches(
    a: Asteroid,
    ev: SpawnEvent,
    id: int,
    wells: Seq<GravityWell>,
    dt: int,
) -> bool {
    let f = force_after_wells(wells, ev.origin, (0int, 0int), dt);
    &&& a.id == id
    &&& a.pos == ev.origin
    &&& a.radius == ev.radius
    &&& a.vel.x == mul_div_spec(ev.target.x - ev.origin.x, ev.speed as int, heading_len(ev))
    &&& a.vel.y == mul_div_spec(ev.target.y - ev.origin.y, ev.speed as int, heading_len(ev))
    &&& a.force.x as int == f.0
    &&& a.force.y as int == f.1
}

} // verus!
