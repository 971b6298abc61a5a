//! Gravity field: attraction toward the field, applied to orbiting bodies
//! within range of a well.
//!
//! For a body strictly between zero distance and a well's maximum radius,
//! the pending force is overwritten with the well's intensity scaled by
//! the tick duration, directed against the body's own position vector
//! from the world origin, normalized.  Outside range the prior pending
//! force persists untouched.  When several wells reach the same body, the
//! last one evaluated wins; nothing is summed.
use vstd::prelude::*;
use crate::geom::{
    Vec2, mul_div, mul_div_spec, isqrt, isqrt_spec, is_isqrt, len_sq_spec, in_coord_range,
    lemma_isqrt_spec_of_witness,
};
use crate::entities::{GravityWell, well_wf};
use crate::{MAX_TICK_US, MICROS_PER_SEC};

verus! {

/// The well acts on a body at `pos`: the distance from the well is
/// strictly positive and strictly below the well's maximum radius
/// (compared on exact squares), and the body is off the world origin, so
/// that the pull direction is defined.
pub open spec fn well_applies(w: GravityWell, pos: Vec2) -> bool {
    let dx = pos.x - w.pos.x;
    let dy = pos.y - w.pos.y;
    &&& dx * dx + dy * dy > 0
    &&& dx * dx + dy * dy < w.max_radius * w.max_radius
    &&& len_sq_spec(pos) > 0
}

/// Pull magnitude for one tick: the well's intensity scaled by the tick
/// duration in seconds.
pub open spec fn pull_spec(w: GravityWell, dt: int) -> int {
    (w.intensity * dt) / (MICROS_PER_SEC as int)
}

/// Horizontal pending force a well in range writes: the pull directed
/// against the body's normalized position vector from the world origin.
pub open spec fn gravity_force_x(w: GravityWell, pos: Vec2, dt: int) -> int {
    -mul_div_spec(pos.x as int, pull_spec(w, dt), isqrt_spec(len_sq_spec(pos)))
}

/// Vertical pending force a well in range writes.
pub open spec fn gravity_force_y(w: GravityWell, pos: Vec2, dt: int) -> int {
    -mul_div_spec(pos.y as int, pull_spec(w, dt), isqrt_spec(len_sq_spec(pos)))
}

/// Pending force on a body at `pos` after evaluating `wells` in order
/// against a prior pending force: each well in range overwrites, so the
/// last one in range wins, and with none in range the prior force
/// persists.
pub open spec fn force_after_wells(
    wells: Seq<GravityWell>,
    pos: Vec2,
    prior: (int, int),
    dt: int,
) -> (int, int)
    decreases wells.len(),
{
    if wells.len() == 0 {
        prior
    } else {
        let rest = force_after_wells(wells.drop_last(), pos, prior, dt);
        if well_applies(wells.last(), pos) {
            (gravity_force_x(wells.last(), pos, dt), gravity_force_y(wells.last(), pos, dt))
        } else {
            rest
        }
    }
}

/// Evaluate every well against one orbiting body and return its pending
/// force for this tick: the last well in range writes it, and with none
/// in range the prior force persists.
pub fn gravity_force(wells: &Vec<GravityWell>, pos: Vec2, prior: Vec2, dt: u64) -> (f: Vec2)
    requires
        in_coord_range(pos),
        dt <= MAX_TICK_US,
        forall|i: int| 0 <= i < wells@.len() ==> well_wf(#[trigger] wells@[i]),
    ensures
        (f.x as int, f.y as int) == force_after_wells(
            wells@,
            pos,
            (prior.x as int, prior.y as int),
            dt as int,
        ),
{
    let mut f = prior;
    let mut i: usize = 0;
    proof {
        assert(wells@.take(0) =~= Seq::<GravityWell>::empty());
    }
    while i < wells.len()
        invariant
            i <= wells@.len(),
            in_coord_range(pos),
            dt <= MAX_TICK_US,
            forall|k: int| 0 <= k < wells@.len() ==> well_wf(#[trigger] wells@[k]),
            (f.x as int, f.y as int) == force_after_wells(
                wells@.take(i as int),
                pos,
                (prior.x as int, prior.y as int),
                dt as int,
            ),
        decreases wells@.len() - i,
    {
        let w = wells[i];
        proof {
            assert(well_wf(wells@[i as int]));
        }
        let diff = pos.minus(w.pos);
        let dsq = diff.len_sq();
        proof {
            let mr = w.max_radius as int;
            assert(mr * mr <= 1_000_000_000_000_000_000) by (nonlinear_arith)
                requires 0 <= mr <= 1_000_000_000;
        }
        let psq = pos.len_sq();
        if dsq > 0 && dsq < w.max_radius * w.max_radius && psq > 0 {
            let plen = isqrt(psq);
            proof {
                assert(is_isqrt(plen as int, psq as int));
                if plen == 0 {
                    assert(psq < 1);
                }
                assert(plen >= 1);
                let inten = w.intensity as int;
                assert(inten * (dt as int) <= 1_000_000_000_000_000) by (nonlinear_arith)
                    requires 0 <= inten <= 1_000_000_000, 0 <= dt as int <= 1_000_000;
                assert(inten * (dt as int) >= 0) by (nonlinear_arith)
                    requires 0 <= inten, 0 <= dt as int;
            }
            let pull = w.intensity * (dt as i64) / 1_000_000;
            proof {
                assert(0 <= pull <= 1_000_000_000);
                let px = pos.x as int;
                let py = pos.y as int;
                let pl = pull as int;
                assert(px * pl <= i64::MAX && (-px) * pl <= i64::MAX
                    && py * pl <= i64::MAX && (-py) * pl <= i64::MAX) by (nonlinear_arith)
                    requires -1_000_000_000 <= px <= 1_000_000_000,
                        -1_000_000_000 <= py <= 1_000_000_000,
                        0 <= pl <= 1_000_000_000;
            }
            let fx = mul_div(pos.x, pull, plen);
            let fy = mul_div(pos.y, pull, plen);
            f = Vec2 { x: -fx, y: -fy };
            proof {
                lemma_isqrt_spec_of_witness(psq as int, plen as int);
                assert(f.x as int == gravity_force_x(wells@[i as int], pos, dt as int));
                assert(f.y as int == gravity_force_y(wells@[i as int], pos, dt as int));
            }
        }
        proof {
            assert(wells@.take(i + 1).drop_last() =~= wells@.take(i as int));
            assert(wells@.take(i + 1).last() == wells@[i as int]);
        }
        i = i + 1;
    }
    proof {
        assert(wells@.take(wells@.len() as int) =~= wells@);
    }
    f
}

} // verus!
