//! Core of a fixed-timestep arcade space simulation.
//!
//! A player craft maneuvers by thrust and torque, fires cooldown-gated
//! projectiles, and contends with periodically spawned asteroids under an
//! optional planetary gravity well.  This crate holds the per-tick decision
//! and bookkeeping logic: input-to-impulse translation, weapon cooldown
//! gating, randomized time-based spawning, gravitational force accumulation,
//! and contact-driven despawn resolution.
//!
//! Rendering, windowing and the rigid-body integrator are external
//! collaborators; they exchange plain values with this crate.  All spatial
//! quantities are fixed-point integers in thousandths of a world unit, and
//! all durations are integer microseconds, so every formula here is exact.
#![allow(unused_imports)]
use vstd::prelude::*;

pub mod actuator;
pub mod contact;
pub mod entities;
pub mod geom;
pub mod gravity;
pub mod sampler;
pub mod spawner;
pub mod timer;
pub mod weapon;
pub mod world;

verus! {

/// Fixed-point scale: coordinate values per world unit.
pub const UNIT: i64 = 1000;

/// Microseconds per second.
pub const MICROS_PER_SEC: u64 = 1_000_000;

/// Largest tick duration the simulation accepts (one second).
pub const MAX_TICK_US: u64 = 1_000_000;

/// Craft capsule half-width (scaled): the collision shape handed to the
/// physics collaborator.
pub const SPACESHIP_HALF_WIDTH: i64 = 10_000;

/// Craft capsule half-height (scaled).
pub const SPACESHIP_HALF_HEIGHT: i64 = 20_000;

/// Projectile capsule half-width (scaled).
pub const PROJECTILE_HALF_WIDTH: i64 = 1_000;

/// Projectile capsule half-height (scaled).
pub const PROJECTILE_HALF_HEIGHT: i64 = 5_000;

/// Projectile mass override handed to the physics collaborator (scaled).
pub const PROJECTILE_MASS: i64 = 1_000_000;

/// Linear gain applied to a held thrust control (units/s^2, scaled).
pub const SPACESHIP_THRUST: i64 = 2_000;

/// Angular gain applied to a held turn control (scaled).
pub const SPACESHIP_TORQUE: i64 = 50;

/// Projectile muzzle speed (units/s, scaled).
pub const PROJECTILE_SPEED: i64 = 900_000;

/// Local offset of the cannon along the craft's forward axis (scaled).
pub const CANNON_OFFSET: i64 = 37_000;

/// Cannon cooldown duration in microseconds (half a second).
pub const CANNON_COOLDOWN_US: u64 = 500_000;

/// Smallest sampled asteroid radius (scaled).
pub const MIN_ASTEROID_RADIUS: i64 = 10_000;

/// Largest sampled asteroid radius (scaled).
pub const MAX_ASTEROID_RADIUS: i64 = 30_000;

/// Smallest sampled asteroid speed (units/s, scaled).
pub const MIN_ASTEROID_SPEED: i64 = 40_000;

/// Largest sampled asteroid speed (units/s, scaled).
pub const MAX_ASTEROID_SPEED: i64 = 80_000;

/// Radius of the ring on which asteroids appear (scaled).
pub const ASTEROID_SPAWN_RADIUS: i64 = 2_000_000;

/// Nominal spawn period in microseconds (twelve seconds).
pub const ASTEROID_PERIOD_US: u64 = 12_000_000;

/// Exclusive bound on the per-tick spawn-timer jitter in microseconds.
pub const SPAWN_JITTER_MAX_US: u64 = 50_000;

/// Asteroid target points lie within this offset of the field center (scaled).
pub const TARGET_SPREAD: i64 = 5_000;

/// Attraction intensity of the planetary gravity well (scaled).
pub const PLANET_GRAVITY: i64 = 600_000;

/// Largest distance at which the planetary well acts (scaled).
pub const PLANET_MAX_RADIUS: i64 = 600_000;

} // verus!
