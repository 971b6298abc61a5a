//! Entities of the simulation snapshot and the simulation's error type.
//!
//! The physics engine is an external collaborator: it integrates the
//! pending impulses and forces written here and hands back transforms.
//! Orientations therefore appear as forward axes (unit vectors scaled by
//! 1000), the form in which the collaborator reports them.
use vstd::prelude::*;
use crate::geom::{Vec2, in_coord_range};
use crate::timer::Timer;

verus! {

/// Discrete input state sampled once per tick.
#[derive(Clone, Copy, PartialEq, Eq, Structural, Debug)]
pub struct InputState {
    pub turn_left: bool,
    pub turn_right: bool,
    pub thrust: bool,
    pub fire: bool,
}

/// Why a tick was aborted.
#[derive(Clone, Copy, PartialEq, Eq, Structural, Debug)]
pub enum SimError {
    /// No controlled craft exists where exactly one is required.
    NoCraft,
    /// More than one controlled craft exists where exactly one is required.
    MultipleCraft,
    /// A configured sampling range has its minimum above its maximum, or a
    /// bound outside what the fixed-point arithmetic admits.
    BadRange,
}

/// The cannon mounted on the craft: a fixed local offset along the craft's
/// forward axis, and the cooldown gating its fire.
#[derive(Clone, Copy, PartialEq, Eq, Structural, Debug)]
pub struct Cannon {
    /// Offset from the craft center along the forward axis (scaled).
    pub offset: i64,
    /// Cooldown that must report finished before a projectile may fire.
    pub cooldown: Timer,
}

/// The player-controlled craft.  Exactly one is expected to exist.
#[derive(Clone, Copy, PartialEq, Eq, Structural, Debug)]
pub struct Craft {
    /// World position (scaled).
    pub pos: Vec2,
    /// Forward axis: a unit vector scaled by 1000, reported by the physics
    /// collaborator from the craft's orientation.
    pub forward: Vec2,
    /// Pending linear impulse, overwritten every tick by the actuator.
    pub impulse: Vec2,
    /// Pending angular impulse in millionths of a unit (finer than the
    /// linear scale, so the small angular gain is not truncated away),
    /// overwritten every tick by the actuator.  Positive means net
    /// turn-right input by the torque formula; the rotational sense is
    /// the physics collaborator's convention.
    pub torque_impulse: i64,
    /// Pending force, written by the gravity field when a well is in range.
    pub force: Vec2,
    /// The craft's cannon.
    pub cannon: Cannon,
}

/// A projectile in flight.
#[derive(Clone, Copy, PartialEq, Eq, Structural, Debug)]
pub struct Projectile {
    /// Collider identifier the physics engine reports contacts under.
    pub id: u64,
    /// World position at creation (scaled).
    pub pos: Vec2,
    /// Velocity: the firing cannon's forward axis times the fixed
    /// projectile speed (scaled).
    pub vel: Vec2,
}

/// A hostile body drifting across the field.
#[derive(Clone, Copy, PartialEq, Eq, Structural, Debug)]
pub struct Asteroid {
    /// Collider identifier the physics engine reports contacts under.
    pub id: u64,
    /// World position (scaled).
    pub pos: Vec2,
    /// Velocity: heading from spawn origin toward the target, scaled by
    /// the sampled speed.
    pub vel: Vec2,
    /// Collision radius (scaled), always positive.
    pub radius: i64,
    /// Pending force, written by the gravity field when a well is in range.
    pub force: Vec2,
}

/// A static attraction source.
#[derive(Clone, Copy, PartialEq, Eq, Structural, Debug)]
pub struct GravityWell {
    /// World position of the well's center (scaled).
    pub pos: Vec2,
    /// Attraction intensity (scaled).
    pub intensity: i64,
    /// Bodies farther from the well than this feel nothing (scaled).
    pub max_radius: i64,
}

/// The craft's fields that the arithmetic relies on stay in range: the
/// position within the coordinate bound and the forward axis no longer
/// than a scaled unit vector.
pub open spec fn craft_wf(c: Craft) -> bool {
    &&& in_coord_range(c.pos)
    &&& -1000 <= c.forward.x <= 1000
    &&& -1000 <= c.forward.y <= 1000
    &&& 0 <= c.cannon.offset <= 1_000_000
    &&& c.cannon.cooldown.wf()
    &&& c.cannon.cooldown.duration <= 100_000_000_000
}

/// The asteroid's fields stay in range for the force arithmetic.
pub open spec fn asteroid_wf(a: Asteroid) -> bool {
    &&& in_coord_range(a.pos)
    &&& a.radius > 0
}

/// The well's fields stay in range for the force arithmetic.
pub open spec fn well_wf(w: GravityWell) -> bool {
    &&& in_coord_range(w.pos)
    &&& 0 <= w.intensity <= 1_000_000_000
    &&& 0 <= w.max_radius <= 1_000_000_000
}

} // verus!
