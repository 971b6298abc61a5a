use asteroid_core::contact::ContactEvent;
use asteroid_core::entities::{Asteroid, InputState, SimError};
use asteroid_core::geom::Vec2;
use asteroid_core::world::World;

const TICK_US: u64 = 16_667;

fn idle() -> InputState {
    InputState { turn_left: false, turn_right: false, thrust: false, fire: false }
}

fn firing() -> InputState {
    InputState { turn_left: false, turn_right: false, thrust: false, fire: true }
}

#[test]
fn new_world_has_one_ready_craft_and_one_well() {
    let w = World::new(1);
    assert_eq!(w.crafts.len(), 1);
    assert!(w.crafts[0].cannon.cooldown.finished());
    assert_eq!(w.crafts[0].pos, Vec2 { x: -375_000, y: 0 });
    assert_eq!(w.crafts[0].forward, Vec2 { x: 0, y: 1000 });
    assert_eq!(w.wells.len(), 1);
    assert_eq!(w.wells[0].intensity, 600_000);
    assert_eq!(w.wells[0].max_radius, 600_000);
    assert!(w.projectiles.is_empty());
    assert!(w.asteroids.is_empty());
    assert_eq!(w.spawn_timer.duration, 12_000_000);
}

#[test]
fn tick_without_craft_aborts() {
    let mut w = World::new(1);
    w.crafts.clear();
    let r = w.tick(idle(), &Vec::new(), TICK_US);
    assert_eq!(r.unwrap_err(), SimError::NoCraft);
}

#[test]
fn tick_with_two_craft_aborts() {
    let mut w = World::new(1);
    let extra = w.crafts[0];
    w.crafts.push(extra);
    let r = w.tick(idle(), &Vec::new(), TICK_US);
    assert_eq!(r.unwrap_err(), SimError::MultipleCraft);
}

#[test]
fn holding_fire_creates_one_projectile_then_waits() {
    let mut w = World::new(1);
    let rep = w.tick(firing(), &Vec::new(), TICK_US).unwrap();
    assert_eq!(rep.fired.len(), 1);
    assert_eq!(rep.fired[0].vel, Vec2 { x: 0, y: 900_000 });
    assert_eq!(w.projectiles.len(), 1);
    // the cooldown is now running: the next held tick fires nothing
    let rep = w.tick(firing(), &Vec::new(), TICK_US).unwrap();
    assert_eq!(rep.fired.len(), 0);
    assert_eq!(w.projectiles.len(), 1);
}

#[test]
fn pipeline_scenario_fires_every_half_second() {
    let mut w = World::new(1);
    let mut firing_ticks: Vec<usize> = Vec::new();
    for tick in 0..=60usize {
        let rep = w.tick(firing(), &Vec::new(), TICK_US).unwrap();
        if !rep.fired.is_empty() {
            firing_ticks.push(tick);
        }
    }
    assert_eq!(firing_ticks, vec![0, 30, 60]);
    assert_eq!(w.projectiles.len(), 3);
}

#[test]
fn pipeline_scenario_first_spawn_after_nominal_period() {
    let mut w = World::new(1);
    let mut first: Option<usize> = None;
    for tick in 0..2000usize {
        let rep = w.tick(idle(), &Vec::new(), TICK_US).unwrap();
        if let Some(ev) = rep.spawned {
            // the appended asteroid carries the event's parameters
            let a = *w.asteroids.last().unwrap();
            assert_eq!(a.pos, ev.origin);
            assert_eq!(a.radius, ev.radius);
            assert!(40_000 <= ev.speed && ev.speed < 80_000);
            assert!(10_000 <= ev.radius && ev.radius < 30_000);
            first = Some(tick);
            break;
        }
    }
    let first = first.expect("the spawner must fire within 2000 ticks");
    assert!(first >= 180, "spawned after {first} ticks, before one nominal period");
    assert!(first <= 720, "spawned after {first} ticks, later than period plus jitter");
    assert_eq!(w.asteroids.len(), 1);
}

#[test]
fn pipeline_contact_consumes_projectile_and_spares_asteroid() {
    let mut w = World::new(1);
    w.asteroids.push(Asteroid {
        id: 500,
        pos: Vec2 { x: 700_000, y: 0 },
        vel: Vec2 { x: -40_000, y: 0 },
        radius: 20_000,
        force: Vec2 { x: 0, y: 0 },
    });
    let rep = w.tick(firing(), &Vec::new(), TICK_US).unwrap();
    assert_eq!(rep.fired.len(), 1);
    let pid = rep.fired[0].id;
    assert_eq!(w.projectiles.len(), 1);

    let contacts = vec![ContactEvent { collider_a: 500, collider_b: pid }];
    w.tick(idle(), &contacts, TICK_US).unwrap();
    assert!(w.projectiles.is_empty());
    assert_eq!(w.asteroids.len(), 1);
}

#[test]
fn pipeline_gravity_writes_craft_force_in_range() {
    // the craft starts 375 units from the well's center, within its reach
    let mut w = World::new(1);
    assert_eq!(w.crafts[0].force, Vec2 { x: 0, y: 0 });
    w.tick(idle(), &Vec::new(), TICK_US).unwrap();
    // pull = 600000 * 16667 / 1000000 = 10000 along the position vector
    assert_eq!(w.crafts[0].force, Vec2 { x: 10_000, y: 0 });
}

#[test]
fn pipeline_thrust_overwrites_impulse_every_tick() {
    let mut w = World::new(1);
    let thrusting = InputState { turn_left: false, turn_right: true, thrust: true, fire: false };
    w.tick(thrusting, &Vec::new(), 1_000_000).unwrap();
    assert_eq!(w.crafts[0].impulse, Vec2 { x: 0, y: 2000 });
    assert_eq!(w.crafts[0].torque_impulse, 50_000);
    w.tick(idle(), &Vec::new(), 1_000_000).unwrap();
    assert_eq!(w.crafts[0].impulse, Vec2 { x: 0, y: 0 });
    assert_eq!(w.crafts[0].torque_impulse, 0);
}

#[test]
fn pipeline_turn_produces_torque_at_nominal_tick() {
    let mut w = World::new(1);
    let turning = InputState { turn_left: false, turn_right: true, thrust: false, fire: false };
    w.tick(turning, &Vec::new(), TICK_US).unwrap();
    assert_eq!(w.crafts[0].torque_impulse, 833);
}
