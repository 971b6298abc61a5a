use asteroid_core::actuator::actuate;
use asteroid_core::contact::{ContactEvent, despawn_projectile, resolve_contacts};
use asteroid_core::entities::{Asteroid, Cannon, Craft, InputState, Projectile, SimError};
use asteroid_core::geom::{isqrt, mul_div, Vec2};
use asteroid_core::gravity::gravity_force;
use asteroid_core::sampler::Sampler;
use asteroid_core::spawner::{
    asteroid_from_event, spawner_tick, standard_ranges, validate_ranges, SpawnEvent, SpawnRanges,
};
use asteroid_core::timer::{Timer, TimerMode};
use asteroid_core::weapon::weapon_tick;

const TICK_US: u64 = 16_667;

fn test_craft(cooldown_ready: bool) -> Craft {
    Craft {
        pos: Vec2 { x: -375_000, y: 0 },
        forward: Vec2 { x: 0, y: 1000 },
        impulse: Vec2 { x: 0, y: 0 },
        torque_impulse: 0,
        force: Vec2 { x: 0, y: 0 },
        cannon: Cannon {
            offset: 37_000,
            cooldown: if cooldown_ready {
                Timer::new_finished(500_000)
            } else {
                Timer::new(500_000, TimerMode::Once)
            },
        },
    }
}

#[test]
fn once_timer_counts_down_and_saturates() {
    let mut t = Timer::new(500, TimerMode::Once);
    assert!(!t.finished());
    t.tick(200);
    assert!(!t.finished());
    t.tick(300);
    assert!(t.finished());
    t.tick(1000);
    assert!(t.finished());
    assert_eq!(t.elapsed, 500);
    t.reset();
    assert!(!t.finished());
    assert_eq!(t.elapsed, 0);
}

#[test]
fn repeating_timer_fires_and_restarts_from_zero() {
    let mut t = Timer::new(100, TimerMode::Repeating);
    t.tick(60);
    assert!(!t.finished());
    t.tick(60);
    assert!(t.finished());
    assert_eq!(t.elapsed, 0);
    t.tick(60);
    assert!(!t.finished());
    t.tick(40);
    assert!(t.finished());
}

#[test]
fn isqrt_exact_values() {
    assert_eq!(isqrt(0), 0);
    assert_eq!(isqrt(1), 1);
    assert_eq!(isqrt(2), 1);
    assert_eq!(isqrt(999_999), 999);
    assert_eq!(isqrt(1_000_000), 1000);
    assert_eq!(isqrt(4_000_000_000_000), 2_000_000);
}

#[test]
fn mul_div_truncates_toward_zero() {
    assert_eq!(mul_div(7, 3, 2), 10);
    assert_eq!(mul_div(-7, 3, 2), -10);
    assert_eq!(mul_div(0, 900_000, 1000), 0);
    assert_eq!(mul_div(1000, 900_000, 1000), 900_000);
    assert_eq!(mul_div(-1000, 900_000, 1000), -900_000);
}

#[test]
fn sampler_stays_within_bounds() {
    let mut rng = Sampler::new(12345);
    for _ in 0..200 {
        let v = rng.sample_range(-50, 70);
        assert!(-50 <= v && v < 70);
        let b = rng.sample_below(13);
        assert!(b < 13);
    }
}

#[test]
fn sampler_unit_dir_near_unit_length() {
    let mut rng = Sampler::new(99);
    for _ in 0..100 {
        let d = rng.sample_unit_dir();
        let len_sq = d.x * d.x + d.y * d.y;
        assert!(998_000 <= len_sq && len_sq <= 1_000_000);
    }
}

#[test]
fn actuator_writes_impulses_each_tick() {
    let mut crafts = vec![test_craft(true)];
    let input = InputState { turn_left: true, turn_right: false, thrust: true, fire: false };
    let r = actuate(&mut crafts, input, 1_000_000);
    assert_eq!(r, Ok(false));
    // torque = (right - left) * 0.05 * dt, in millionths of a unit
    assert_eq!(crafts[0].torque_impulse, -50_000);
    assert_eq!(crafts[0].impulse, Vec2 { x: 0, y: 2000 });

    // with nothing held, both impulses are overwritten with zero
    let idle = InputState { turn_left: false, turn_right: false, thrust: false, fire: true };
    let r = actuate(&mut crafts, idle, 1_000_000);
    assert_eq!(r, Ok(true));
    assert_eq!(crafts[0].torque_impulse, 0);
    assert_eq!(crafts[0].impulse, Vec2 { x: 0, y: 0 });
}

#[test]
fn actuator_turns_at_the_nominal_tick() {
    // at 1/60 s the angular gain must survive truncation: 50 * 16667 / 1000
    let mut crafts = vec![test_craft(true)];
    let right = InputState { turn_left: false, turn_right: true, thrust: false, fire: false };
    actuate(&mut crafts, right, TICK_US).unwrap();
    assert_eq!(crafts[0].torque_impulse, 833);
    let left = InputState { turn_left: true, turn_right: false, thrust: false, fire: false };
    actuate(&mut crafts, left, TICK_US).unwrap();
    assert_eq!(crafts[0].torque_impulse, -833);
    let both = InputState { turn_left: true, turn_right: true, thrust: false, fire: false };
    actuate(&mut crafts, both, TICK_US).unwrap();
    assert_eq!(crafts[0].torque_impulse, 0);
}

#[test]
fn sampler_reproducible_from_equal_seeds() {
    let mut a = Sampler::new(31_337);
    let mut b = Sampler::new(31_337);
    for _ in 0..50 {
        assert_eq!(a.next_raw(), b.next_raw());
    }
    assert_eq!(a.sample_range(-10, 10), b.sample_range(-10, 10));
    assert_eq!(a.sample_below(97), b.sample_below(97));
    assert_eq!(a.sample_unit_dir(), b.sample_unit_dir());
    assert_eq!(a.state, b.state);
}

#[test]
fn actuator_requires_exactly_one_craft() {
    let input = InputState { turn_left: false, turn_right: false, thrust: false, fire: false };
    let mut none: Vec<Craft> = Vec::new();
    assert_eq!(actuate(&mut none, input, TICK_US), Err(SimError::NoCraft));
    let mut two = vec![test_craft(true), test_craft(true)];
    assert_eq!(actuate(&mut two, input, TICK_US), Err(SimError::MultipleCraft));
}

#[test]
fn no_projectile_while_cooldown_running() {
    let mut crafts = vec![test_craft(false)];
    let mut queue: usize = 3;
    let mut next_id: u64 = 1;
    let r = weapon_tick(&mut crafts, &mut queue, &mut next_id, TICK_US).unwrap();
    assert_eq!(r.len(), 0);
    assert_eq!(queue, 3);
    assert_eq!(next_id, 1);
}

#[test]
fn single_intent_fires_one_projectile_along_forward_axis() {
    let mut crafts = vec![test_craft(true)];
    let mut queue: usize = 1;
    let mut next_id: u64 = 7;
    let r = weapon_tick(&mut crafts, &mut queue, &mut next_id, TICK_US).unwrap();
    assert_eq!(r.len(), 1);
    assert_eq!(queue, 0);
    assert_eq!(next_id, 8);
    assert_eq!(r[0].id, 7);
    assert_eq!(r[0].pos, Vec2 { x: -375_000, y: 37_000 });
    assert_eq!(r[0].vel, Vec2 { x: 0, y: 900_000 });
    // velocity magnitude is exactly the configured projectile speed
    let speed_sq = r[0].vel.x * r[0].vel.x + r[0].vel.y * r[0].vel.y;
    assert_eq!(speed_sq, 900_000i64 * 900_000i64);
    // the cooldown was reset and then advanced by one tick
    assert_eq!(crafts[0].cannon.cooldown.elapsed, TICK_US);
}

#[test]
fn projectile_speed_within_tolerance_for_quantized_axis() {
    // a forward axis of squared length 999796, inside the sampler's band
    let mut crafts = vec![test_craft(true)];
    crafts[0].forward = Vec2 { x: 700, y: 714 };
    let mut queue: usize = 1;
    let mut next_id: u64 = 1;
    let r = weapon_tick(&mut crafts, &mut queue, &mut next_id, TICK_US).unwrap();
    assert_eq!(r.len(), 1);
    assert_eq!(r[0].vel, Vec2 { x: 630_000, y: 642_600 });
    let speed_sq = r[0].vel.x * r[0].vel.x + r[0].vel.y * r[0].vel.y;
    assert!(810_000i64 * 998_000 <= speed_sq && speed_sq <= 900_000i64 * 900_000);
}

#[test]
fn queued_burst_fires_back_to_back() {
    let mut crafts = vec![test_craft(true)];
    let mut queue: usize = 3;
    let mut next_id: u64 = 1;
    let r = weapon_tick(&mut crafts, &mut queue, &mut next_id, TICK_US).unwrap();
    assert_eq!(r.len(), 3);
    assert_eq!(queue, 0);
    assert_eq!(next_id, 4);
    assert_eq!(r[0].id, 1);
    assert_eq!(r[1].id, 2);
    assert_eq!(r[2].id, 3);
}

#[test]
fn weapon_requires_exactly_one_cannon() {
    let mut queue: usize = 1;
    let mut next_id: u64 = 1;
    let mut none: Vec<Craft> = Vec::new();
    assert_eq!(
        weapon_tick(&mut none, &mut queue, &mut next_id, TICK_US),
        Err(SimError::NoCraft)
    );
    let mut two = vec![test_craft(true), test_craft(true)];
    assert_eq!(
        weapon_tick(&mut two, &mut queue, &mut next_id, TICK_US),
        Err(SimError::MultipleCraft)
    );
}

#[test]
fn cooldown_scenario_fires_at_zero_half_and_one_second() {
    let mut crafts = vec![test_craft(true)];
    let mut next_id: u64 = 1;
    let mut firing_ticks: Vec<usize> = Vec::new();
    for tick in 0..=60usize {
        let mut queue: usize = 1;
        let fired = weapon_tick(&mut crafts, &mut queue, &mut next_id, TICK_US).unwrap();
        if !fired.is_empty() {
            firing_ticks.push(tick);
        }
    }
    // 0.5 s cooldown at sixty ticks a second: shots near t = 0, 0.5, 1.0
    assert_eq!(firing_ticks, vec![0, 30, 60]);
}

#[test]
fn firing_count_stays_within_one_of_window_over_cooldown() {
    // cooldown an exact multiple of the tick: 0.5 s at 10 ms ticks
    let dt: u64 = 10_000;
    let mut crafts = vec![test_craft(true)];
    crafts[0].cannon.cooldown = Timer::new_finished(500_000);
    let mut next_id: u64 = 1;
    let mut count: i64 = 0;
    let ticks: usize = 101;
    for _ in 0..ticks {
        let mut queue: usize = 1;
        let fired = weapon_tick(&mut crafts, &mut queue, &mut next_id, dt).unwrap();
        if !fired.is_empty() {
            count += 1;
        }
    }
    let window_over_cooldown = (ticks as i64 * dt as i64) / 500_000;
    assert!(window_over_cooldown <= count && count <= window_over_cooldown + 1);
    assert_eq!(count, 3);
}

#[test]
fn validate_ranges_accepts_standard_and_rejects_inverted() {
    assert_eq!(validate_ranges(&standard_ranges()), Ok(()));
    let mut bad = standard_ranges();
    bad.min_speed = bad.max_speed + 1;
    assert_eq!(validate_ranges(&bad), Err(SimError::BadRange));
    let mut bad2 = standard_ranges();
    bad2.min_radius = bad2.max_radius;
    assert_eq!(validate_ranges(&bad2), Err(SimError::BadRange));
}

#[test]
fn spawn_event_parameters_within_ranges() {
    let ranges = standard_ranges();
    let mut timer = Timer::new(100, TimerMode::Repeating);
    let mut rng = Sampler::new(4242);
    for round in 0..20 {
        let mut ev = None;
        for _ in 0..10 {
            ev = spawner_tick(&mut timer, &mut rng, &ranges, TICK_US);
            if ev.is_some() {
                break;
            }
        }
        let ev = ev.expect("a 100 microsecond period must fire within a few ticks");
        assert!(ranges.min_speed <= ev.speed && ev.speed < ranges.max_speed);
        assert!(ranges.min_radius <= ev.radius && ev.radius < ranges.max_radius);
        assert!(-ranges.target_spread <= ev.target.x && ev.target.x < ranges.target_spread);
        assert!(-ranges.target_spread <= ev.target.y && ev.target.y < ranges.target_spread);
        let len_sq = (ev.origin.x as i128) * (ev.origin.x as i128)
            + (ev.origin.y as i128) * (ev.origin.y as i128);
        let sr = ranges.spawn_radius as i128;
        assert!(998 * sr * sr <= 1000 * len_sq, "round {round}: origin short of the ring");
        assert!(len_sq <= sr * sr, "round {round}: origin beyond the ring");
    }
}

#[test]
fn spawn_cadence_first_event_never_early() {
    // nominal period 12 s, tick 1/60 s, jitter below 0.05 s per tick:
    // the first event takes at least 180 and at most 720 ticks
    let ranges = standard_ranges();
    let mut timer = Timer::new(12_000_000, TimerMode::Repeating);
    let mut rng = Sampler::new(7);
    let mut first: Option<usize> = None;
    for tick in 0..2000usize {
        if spawner_tick(&mut timer, &mut rng, &ranges, TICK_US).is_some() {
            first = Some(tick);
            break;
        }
    }
    let first = first.expect("the cadence must fire within 2000 ticks");
    assert!(first >= 180, "fired after {first} ticks, before one nominal period");
    assert!(first <= 720, "fired after {first} ticks, later than the period plus jitter");
}

#[test]
fn asteroid_from_event_heads_toward_target() {
    let ranges = standard_ranges();
    let ev = SpawnEvent {
        origin: Vec2 { x: 2_000_000, y: 0 },
        target: Vec2 { x: 0, y: 0 },
        speed: 50_000,
        radius: 15_000,
    };
    let a = asteroid_from_event(&ev, &ranges, 31);
    assert_eq!(a.id, 31);
    assert_eq!(a.pos, Vec2 { x: 2_000_000, y: 0 });
    assert_eq!(a.radius, 15_000);
    assert_eq!(a.force, Vec2 { x: 0, y: 0 });
    // heading is the unit vector from origin toward target, scaled by speed
    assert_eq!(a.vel, Vec2 { x: -50_000, y: 0 });
}

#[test]
fn contact_removes_projectile_and_never_asteroid() {
    let asteroids = vec![Asteroid {
        id: 10,
        pos: Vec2 { x: 500_000, y: 0 },
        vel: Vec2 { x: -40_000, y: 0 },
        radius: 20_000,
        force: Vec2 { x: 0, y: 0 },
    }];
    let p1 = Projectile { id: 1, pos: Vec2 { x: 0, y: 0 }, vel: Vec2 { x: 0, y: 900_000 } };
    let p2 = Projectile { id: 2, pos: Vec2 { x: 0, y: 0 }, vel: Vec2 { x: 0, y: 900_000 } };
    let mut projectiles = vec![p1, p2];
    let events = vec![ContactEvent { collider_a: 1, collider_b: 10 }];
    resolve_contacts(&events, &asteroids, &mut projectiles);
    assert_eq!(projectiles.len(), 1);
    assert_eq!(projectiles[0].id, 2);
    assert_eq!(asteroids.len(), 1);
}

#[test]
fn contact_matches_in_either_order_and_ignores_strangers() {
    let asteroids = vec![Asteroid {
        id: 10,
        pos: Vec2 { x: 500_000, y: 0 },
        vel: Vec2 { x: 0, y: 0 },
        radius: 20_000,
        force: Vec2 { x: 0, y: 0 },
    }];
    let mk = |id| Projectile { id, pos: Vec2 { x: 0, y: 0 }, vel: Vec2 { x: 0, y: 0 } };
    let mut projectiles = vec![mk(1), mk(2), mk(3)];
    let events = vec![
        ContactEvent { collider_a: 10, collider_b: 2 },  // asteroid first: removes 2
        ContactEvent { collider_a: 1, collider_b: 3 },   // two projectiles: removes nothing
        ContactEvent { collider_a: 10, collider_b: 99 }, // unknown collider: removes nothing
    ];
    resolve_contacts(&events, &asteroids, &mut projectiles);
    let ids: Vec<u64> = projectiles.iter().map(|p| p.id).collect();
    assert_eq!(ids, vec![1, 3]);
}

#[test]
fn despawn_of_missing_entity_is_a_no_op() {
    let mk = |id| Projectile { id, pos: Vec2 { x: 0, y: 0 }, vel: Vec2 { x: 0, y: 0 } };
    let mut projectiles = vec![mk(5), mk(6)];
    despawn_projectile(&mut projectiles, 5);
    assert_eq!(projectiles.len(), 1);
    despawn_projectile(&mut projectiles, 5);
    assert_eq!(projectiles.len(), 1);
    despawn_projectile(&mut projectiles, 42);
    assert_eq!(projectiles.len(), 1);
    assert_eq!(projectiles[0].id, 6);
}

#[test]
fn gravity_well_sets_force_on_body_in_range() {
    // intensity 600, radius limit 600, body at distance 300: force written
    let wells = vec![asteroid_core::entities::GravityWell {
        pos: Vec2 { x: 0, y: 0 },
        intensity: 600_000,
        max_radius: 600_000,
    }];
    let f = gravity_force(&wells, Vec2 { x: 300_000, y: 0 }, Vec2 { x: 0, y: 0 }, TICK_US);
    // pull = 600000 * 16667 / 1000000 = 10000, directed toward the center
    assert_eq!(f, Vec2 { x: -10_000, y: 0 });
}

#[test]
fn gravity_out_of_range_leaves_prior_force() {
    // body at distance 700, beyond the 600 limit: the prior force persists
    let wells = vec![asteroid_core::entities::GravityWell {
        pos: Vec2 { x: 0, y: 0 },
        intensity: 600_000,
        max_radius: 600_000,
    }];
    let prior = Vec2 { x: 42, y: 7 };
    let f = gravity_force(&wells, Vec2 { x: 700_000, y: 0 }, prior, TICK_US);
    assert_eq!(f, prior);
}

#[test]
fn gravity_zero_distance_is_out_of_range() {
    let wells = vec![asteroid_core::entities::GravityWell {
        pos: Vec2 { x: 300_000, y: 0 },
        intensity: 600_000,
        max_radius: 600_000,
    }];
    let prior = Vec2 { x: 5, y: 5 };
    let f = gravity_force(&wells, Vec2 { x: 300_000, y: 0 }, prior, TICK_US);
    assert_eq!(f, prior);
}

#[test]
fn gravity_last_well_in_range_wins() {
    let well = |intensity| asteroid_core::entities::GravityWell {
        pos: Vec2 { x: 0, y: 0 },
        intensity,
        max_radius: 600_000,
    };
    let wells = vec![well(600_000), well(300_000)];
    let f = gravity_force(&wells, Vec2 { x: 300_000, y: 0 }, Vec2 { x: 0, y: 0 }, TICK_US);
    // the second well's pull: 300000 * 16667 / 1000000 = 5000
    assert_eq!(f, Vec2 { x: -5_000, y: 0 });
}

#[test]
fn validate_rejects_radius_not_on_grid() {
    let mut bad = standard_ranges();
    bad.spawn_radius = 1_000_001;
    assert_eq!(validate_ranges(&bad), Err(SimError::BadRange));
}

#[test]
fn spawn_ranges_are_plain_data() {
    let r = SpawnRanges {
        min_speed: 40_000,
        max_speed: 80_000,
        min_radius: 10_000,
        max_radius: 30_000,
        spawn_radius: 2_000_000,
        target_spread: 5_000,
    };
    assert_eq!(r, standard_ranges());
}
