//! Spawner: periodic, jittered production of asteroid spawn events, and
//! their consumption into hostile bodies.
//!
//! Production: when the spawn timer reports finished, one event is drawn:
//! an origin on the spawn ring, a target near the field center, a speed
//! and a radius, each from its own fixed range.  After the finished
//! check, the timer advances by the tick duration plus a random jitter,
//! desynchronizing the cadence from wall-clock multiples of the period.
//!
//! Consumption is decoupled: each event yields one asteroid at the event
//! origin, moving toward the event target at the event speed, so several
//! queued events each yield one body regardless of what produced them.
use vstd::prelude::*;
use vstd::arithmetic::div_mod::lemma_fundamental_div_mod;
use crate::geom::{
    Vec2, mul_div, mul_div_spec, isqrt, isqrt_spec, is_isqrt, len_sq_spec,
    lemma_isqrt_spec_of_witness,
};
use crate::entities::{Asteroid, SimError};
use crate::sampler::Sampler;
use crate::timer::{Timer, TimerMode};
use crate::{MAX_TICK_US, SPAWN_JITTER_MAX_US, UNIT};

verus! {

/// The sampling ranges and cadence parameters the spawner runs with.
#[derive(Clone, Copy, PartialEq, Eq, Structural, Debug)]
pub struct SpawnRanges {
    /// Inclusive lower bound on sampled asteroid speed (scaled).
    pub min_speed: i64,
    /// Exclusive upper bound on sampled asteroid speed (scaled).
    pub max_speed: i64,
    /// Inclusive lower bound on sampled asteroid radius (scaled).
    pub min_radius: i64,
    /// Exclusive upper bound on sampled asteroid radius (scaled).
    pub max_radius: i64,
    /// Radius of the ring on which origins are placed (scaled).
    pub spawn_radius: i64,
    /// Target points fall within this offset of the field center (scaled).
    pub target_spread: i64,
}

/// The ranges are ordered and sized so that every sample is positive, the
/// fixed-point arithmetic cannot overflow, and the spawn ring lies
/// strictly outside the target region (so origin and target never
/// coincide).
pub open spec fn ranges_valid(r: SpawnRanges) -> bool {
    &&& 0 < r.min_speed < r.max_speed <= 1_000_000
    &&& 0 < r.min_radius < r.max_radius <= 1_000_000
    &&& 0 < r.spawn_radius <= 1_000_000_000
    &&& r.spawn_radius % UNIT == 0
    &&& 0 < r.target_spread <= 100_000
    &&& 998 * r.spawn_radius * r.spawn_radius > 2000 * r.target_spread * r.target_spread
}

/// Startup validation of the configured ranges: a minimum above its
/// maximum, or a bound the fixed-point arithmetic cannot carry, is fatal
/// before the first tick rather than per tick.
pub fn validate_ranges(r: &SpawnRanges) -> (res: Result<(), SimError>)
    ensures
        res.is_ok() <==> ranges_valid(*r),
        res.is_err() ==> res == Err::<(), SimError>(SimError::BadRange),
{
    if !(0 < r.min_speed && r.min_speed < r.max_speed && r.max_speed <= 1_000_000) {
        return Err(SimError::BadRange);
    }
    if !(0 < r.min_radius && r.min_radius < r.max_radius && r.max_radius <= 1_000_000) {
        return Err(SimError::BadRange);
    }
    if !(0 < r.spawn_radius && r.spawn_radius <= 1_000_000_000) {
        return Err(SimError::BadRange);
    }
    if r.spawn_radius % UNIT != 0 {
        return Err(SimError::BadRange);
    }
    if !(0 < r.target_spread && r.target_spread <= 100_000) {
        return Err(SimError::BadRange);
    }
    proof {
        let sr = r.spawn_radius as int;
        let ts = r.target_spread as int;
        assert(998 * sr * sr <= 998_000_000_000_000_000_000) by (nonlinear_arith)
            requires 0 < sr <= 1_000_000_000;
        assert(2000 * ts * ts <= 20_000_000_000_000) by (nonlinear_arith)
            requires 0 < ts <= 100_000;
        assert(998 * sr * sr >= 0 && 2000 * ts * ts >= 0) by (nonlinear_arith)
            requires 0 < sr, 0 < ts;
    }
    let ring: i128 = 998i128 * (r.spawn_radius as i128) * (r.spawn_radius as i128);
    let spread: i128 = 2000i128 * (r.target_spread as i128) * (r.target_spread as i128);
    if !(ring > spread) {
        return Err(SimError::BadRange);
    }
    Ok(())
}

/// The spawner configuration the simulation ships with.
pub open spec fn standard_ranges_spec() -> SpawnRanges {
    SpawnRanges {
        min_speed: crate::MIN_ASTEROID_SPEED,
        max_speed: crate::MAX_ASTEROID_SPEED,
        min_radius: crate::MIN_ASTEROID_RADIUS,
        max_radius: crate::MAX_ASTEROID_RADIUS,
        spawn_radius: crate::ASTEROID_SPAWN_RADIUS,
        target_spread: crate::TARGET_SPREAD,
    }
}

/// Build the spawner configuration the simulation ships with.
pub fn standard_ranges() -> (r: SpawnRanges)
    ensures
        r == standard_ranges_spec(),
        ranges_valid(r),
{
    let r = SpawnRanges {
        min_speed: crate::MIN_ASTEROID_SPEED,
        max_speed: crate::MAX_ASTEROID_SPEED,
        min_radius: crate::MIN_ASTEROID_RADIUS,
        max_radius: crate::MAX_ASTEROID_RADIUS,
        spawn_radius: crate::ASTEROID_SPAWN_RADIUS,
        target_spread: crate::TARGET_SPREAD,
    };
    proof {
        assert(998 * (2_000_000int) * (2_000_000int) > 2000 * (5_000int) * (5_000int))
            by (nonlinear_arith);
    }
    r
}

/// A fully parameterized request to instantiate one hostile body.
#[derive(Clone, Copy, PartialEq, Eq, Structural, Debug)]
pub struct SpawnEvent {
    /// Where the body appears: a point on the spawn ring (scaled).
    pub origin: Vec2,
    /// The point near the field center the body heads toward (scaled).
    pub target: Vec2,
    /// Sampled speed (scaled).
    pub speed: i64,
    /// Sampled collision radius (scaled).
    pub radius: i64,
}

/// The origin lies on the spawn ring: its distance from the field center
/// is within one part in five hundred of the configured spawn radius
/// (stated on exact squares).
pub open spec fn on_spawn_ring(origin: Vec2, spawn_radius: int) -> bool {
    &&& -spawn_radius <= origin.x <= spawn_radius
    &&& -spawn_radius <= origin.y <= spawn_radius
    &&& 998 * spawn_radius * spawn_radius <= 1000 * len_sq_spec(origin)
    &&& len_sq_spec(origin) <= spawn_radius * spawn_radius
}

/// Every sampled parameter of the event lies strictly within its
/// configured range, and the origin sits on the spawn ring.
pub open spec fn event_within_ranges(e: SpawnEvent, r: SpawnRanges) -> bool {
    &&& r.min_speed <= e.speed < r.max_speed
    &&& r.min_radius <= e.radius < r.max_radius
    &&& -r.target_spread <= e.target.x < r.target_spread
    &&& -r.target_spread <= e.target.y < r.target_spread
    &&& on_spawn_ring(e.origin, r.spawn_radius as int)
}

/// Advance the spawn cadence by one tick and produce at most one event.
///
/// If the timer reported finished (its last tick crossed the period), one
/// event is drawn, every parameter within its configured range.  The
/// timer then advances by the tick duration plus a random jitter below
/// [`SPAWN_JITTER_MAX_US`]; the jitter only hastens the timer's own
/// clock, and a fresh full period must still accumulate between firings.
pub fn spawner_tick(
    timer: &mut Timer,
    rng: &mut Sampler,
    ranges: &SpawnRanges,
    dt: u64,
) -> (ev: Option<SpawnEvent>)
    requires
        ranges_valid(*ranges),
        old(timer).wf(),
        old(timer).mode == TimerMode::Repeating,
        old(timer).duration <= 100_000_000_000,
        dt <= MAX_TICK_US,
    ensures
        ev.is_some() <==> old(timer).finished_spec(),
        ev.is_some() ==> event_within_ranges(ev.unwrap(), *ranges),
        exists|j: u64|
            0 <= j < SPAWN_JITTER_MAX_US
            && *final(timer) == old(timer).ticked(#[trigger] ((dt + j) as u64)),
        final(timer).wf(),
        final(timer).mode == old(timer).mode,
        final(timer).duration == old(timer).duration,
{
    let fired = timer.finished();
    let mut ev: Option<SpawnEvent> = None;
    if fired {
        let dir = rng.sample_unit_dir();
        let k = ranges.spawn_radius / UNIT;
        proof {
            lemma_fundamental_div_mod(ranges.spawn_radius as int, UNIT as int);
            assert(ranges.spawn_radius as int == 1000 * (k as int));
            assert(0 <= k <= 1_000_000);
            let dx = dir.x as int;
            let dy = dir.y as int;
            let ki = k as int;
            assert(-1000 * ki <= dx * ki <= 1000 * ki
                && -1000 * ki <= dy * ki <= 1000 * ki) by (nonlinear_arith)
                requires -1000 <= dx <= 1000, -1000 <= dy <= 1000, 0 <= ki;
        }
        let origin = Vec2 { x: dir.x * k, y: dir.y * k };
        proof {
            let dx = dir.x as int;
            let dy = dir.y as int;
            let ki = k as int;
            let s = len_sq_spec(dir);
            let sr = ranges.spawn_radius as int;
            assert((dx * ki) * (dx * ki) + (dy * ki) * (dy * ki) == (dx * dx + dy * dy) * (ki * ki))
                by (nonlinear_arith);
            assert(len_sq_spec(origin) == s * (ki * ki));
            assert(0 <= ki * ki) by (nonlinear_arith);
            assert(s * (ki * ki) >= 998_000 * (ki * ki)) by (nonlinear_arith)
                requires 998_000 <= s, 0 <= ki * ki;
            assert(s * (ki * ki) <= 1_000_000 * (ki * ki)) by (nonlinear_arith)
                requires s <= 1_000_000, 0 <= ki * ki;
            assert(998 * sr * sr == 1000 * (998_000 * (ki * ki))) by (nonlinear_arith)
                requires sr == 1000 * ki;
            assert(sr * sr == 1_000_000 * (ki * ki)) by (nonlinear_arith)
                requires sr == 1000 * ki;
            assert(1000 * (s * (ki * ki)) >= 1000 * (998_000 * (ki * ki)));
            assert(998 * sr * sr <= 1000 * len_sq_spec(origin));
            assert(len_sq_spec(origin) <= sr * sr);
            assert(on_spawn_ring(origin, ranges.spawn_radius as int));
        }
        let tx = rng.sample_range(-ranges.target_spread, ranges.target_spread);
        let ty = rng.sample_range(-ranges.target_spread, ranges.target_spread);
        let speed = rng.sample_range(ranges.min_speed, ranges.max_speed);
        let radius = rng.sample_range(ranges.min_radius, ranges.max_radius);
        ev = Some(SpawnEvent {
            origin,
            target: Vec2 { x: tx, y: ty },
            speed,
            radius,
        });
    }
    let jitter = rng.sample_below(SPAWN_JITTER_MAX_US);
    timer.tick(dt + jitter);
    proof {
        assert(*final(timer) == old(timer).ticked((dt + jitter) as u64));
    }
    ev
}

/// The length of the heading from the event's origin to its target.
pub open spec fn heading_len(e: SpawnEvent) -> int {
    isqrt_spec(
        (e.target.x - e.origin.x) * (e.target.x - e.origin.x)
        + (e.target.y - e.origin.y) * (e.target.y - e.origin.y),
    )
}

/// Consume one spawn event: instantiate the hostile body it describes, at
/// the event origin, heading from the origin toward the target at the
/// event speed, with the sampled radius and no pending force yet.
pub fn asteroid_from_event(ev: &SpawnEvent, ranges: &SpawnRanges, id: u64) -> (a: Asteroid)
    requires
        ranges_valid(*ranges),
        event_within_ranges(*ev, *ranges),
    ensures
        a.id == id,
        a.pos == ev.origin,
        a.radius == ev.radius,
        a.radius > 0,
        a.force == Vec2::zero_spec(),
        a.vel.x == mul_div_spec(
            ev.target.x - ev.origin.x,
            ev.speed as int,
            heading_len(*ev),
        ),
        a.vel.y == mul_div_spec(
            ev.target.y - ev.origin.y,
            ev.speed as int,
            heading_len(*ev),
        ),
{
    let diff = ev.target.minus(ev.origin);
    let dsq = diff.len_sq();
    proof {
        let ox = ev.origin.x as int;
        let oy = ev.origin.y as int;
        let tx = ev.target.x as int;
        let ty = ev.target.y as int;
        let ts = ranges.target_spread as int;
        let sr = ranges.spawn_radius as int;
        if dsq == 0 {
            assert(diff.x == 0 && diff.y == 0) by (nonlinear_arith)
                requires diff.x * diff.x + diff.y * diff.y == 0;
            assert(len_sq_spec(ev.target) == len_sq_spec(ev.origin));
            assert(tx * tx <= ts * ts && ty * ty <= ts * ts) by (nonlinear_arith)
                requires -ts <= tx <= ts, -ts <= ty <= ts;
            assert(1000 * len_sq_spec(ev.origin) >= 998 * sr * sr);
            assert(1000 * (tx * tx + ty * ty) <= 2000 * ts * ts) by (nonlinear_arith)
                requires tx * tx <= ts * ts, ty * ty <= ts * ts;
            assert(false);
        }
    }
    let hlen = isqrt(dsq);
    proof {
        assert(is_isqrt(hlen as int, dsq as int));
        if hlen == 0 {
            assert((hlen as int + 1) * (hlen as int + 1) == 1) by (nonlinear_arith)
                requires hlen as int == 0;
            assert(dsq < 1);
        }
        assert(hlen >= 1);
        lemma_isqrt_spec_of_witness(dsq as int, hlen as int);
        let dx = diff.x as int;
        let dy = diff.y as int;
        let sp = ev.speed as int;
        assert(dx * sp <= i64::MAX && (-dx) * sp <= i64::MAX
            && dy * sp <= i64::MAX && (-dy) * sp <= i64::MAX) by (nonlinear_arith)
            requires -2_000_000_000 <= dx <= 2_000_000_000,
                -2_000_000_000 <= dy <= 2_000_000_000,
                0 <= sp <= 1_000_000;
    }
    let vx = mul_div(diff.x, ev.speed, hlen);
    let vy = mul_div(diff.y, ev.speed, hlen);
    Asteroid {
        id,
        pos: ev.origin,
        vel: Vec2 { x: vx, y: vy },
        radius: ev.radius,
        force: Vec2::zero(),
    }
}

} // verus!
