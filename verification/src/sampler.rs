//! Deterministic pseudo-random sampler for spawn parameters.
//!
//! A linear congruential generator over `u64` with explicit,
//! process-scoped state.  Every contract pins the state transition and
//! each sample as a function of the drawn words, so two samplers started
//! from equal seeds provably produce equal draws; nothing is promised
//! about the distribution, and every derived sample carries an exact
//! range contract, which is all the simulation's invariants rest on.
use vstd::prelude::*;
use vstd::arithmetic::div_mod::{
    lemma_add_mod_noop, lemma_fundamental_div_mod_converse_mod, lemma_mod_bound, lemma_small_mod,
};
use crate::geom::{Vec2, isqrt, isqrt_spec, is_isqrt, len_sq_spec};

verus! {

/// Multiplier of the linear congruential step.
pub const LCG_MULTIPLIER: u64 = 6364136223846793005;

/// Increment of the linear congruential step.
pub const LCG_INCREMENT: u64 = 1442695040888963407;

/// One step of the linear congruential recurrence: multiply, add, wrap
/// modulo two to the sixty-fourth.
pub open spec fn lcg_step(s: u64) -> u64 {
    ((s * LCG_MULTIPLIER + LCG_INCREMENT) % 0x1_0000_0000_0000_0000) as u64
}

/// The wrapping multiply-add the executable code performs equals the
/// modular recurrence step.
proof fn lemma_wrapping_step_is_lcg_step(s: u64)
    ensures
        vstd::wrapping::u64_specs::wrapping_add(
            vstd::wrapping::u64_specs::wrapping_mul(s, LCG_MULTIPLIER),
            LCG_INCREMENT,
        ) == lcg_step(s),
{
    let r: int = 0x1_0000_0000_0000_0000;
    let prod: int = (s as int) * (LCG_MULTIPLIER as int);
    let m = vstd::wrapping::u64_specs::wrapping_mul(s, LCG_MULTIPLIER);
    assert(prod >= 0) by (nonlinear_arith)
        requires s as int >= 0, LCG_MULTIPLIER as int >= 0, prod == (s as int) * (LCG_MULTIPLIER as int);
    lemma_mod_bound(prod, r);
    assert(m as int == prod % r);
    lemma_small_mod(LCG_INCREMENT as nat, r as nat);
    lemma_add_mod_noop(prod, LCG_INCREMENT as int, r);
    assert(((prod % r) + (LCG_INCREMENT as int)) % r == (prod + LCG_INCREMENT as int) % r);
    let sum: int = m as int + LCG_INCREMENT as int;
    if sum > u64::MAX as int {
        lemma_fundamental_div_mod_converse_mod(sum, r, 1, sum - r);
    } else {
        lemma_small_mod(sum as nat, r as nat);
    }
}

/// A pseudo-random number generator with explicit, process-scoped state.
#[derive(Clone, Copy, PartialEq, Eq, Structural, Debug)]
pub struct Sampler {
    pub state: u64,
}

impl Sampler {
    /// Build a sampler from a seed.
    pub fn new(seed: u64) -> (s: Sampler)
        ensures
            s.state == seed,
    {
        Sampler { state: seed }
    }

    /// Draw the next raw word: one step of the recurrence.  No
    /// distribution is promised of it.
    pub fn next_raw(&mut self) -> (r: u64)
        ensures
            final(self).state == lcg_step(old(self).state),
            r == final(self).state,
    {
        proof {
            lemma_wrapping_step_is_lcg_step(self.state);
        }
        self.state = self.state.wrapping_mul(LCG_MULTIPLIER).wrapping_add(LCG_INCREMENT);
        self.state
    }

    /// Draw a value strictly below `bound`: the next raw word reduced
    /// modulo the bound.
    pub fn sample_below(&mut self, bound: u64) -> (r: u64)
        requires
            bound > 0,
        ensures
            final(self).state == lcg_step(old(self).state),
            r == final(self).state % bound,
            r < bound,
    {
        let raw = self.next_raw();
        raw % bound
    }

    /// Draw a value in the half-open range `[lo, hi)`: the next raw word
    /// reduced modulo the span, offset from the lower bound.
    pub fn sample_range(&mut self, lo: i64, hi: i64) -> (r: i64)
        requires
            lo < hi,
        ensures
            final(self).state == lcg_step(old(self).state),
            r as int == lo + (final(self).state as int) % (hi - lo),
            lo <= r < hi,
    {
        let span = (hi as i128 - lo as i128) as u128;
        let raw = self.next_raw();
        let off = (raw as u128) % span;
        proof {
            assert(off < span);
            assert(off as int == (raw as int) % (hi - lo));
        }
        (lo as i128 + off as i128) as i64
    }

    /// Draw a vector of squared length within one part in a thousand of
    /// the unit length (scaled so that a unit vector has coordinates up
    /// to 1000): the first drawn word places one coordinate uniformly,
    /// the integer square root completes it to the unit circle, and the
    /// second drawn word picks the sign.
    pub fn sample_unit_dir(&mut self) -> (r: Vec2)
        ensures
            final(self).state == lcg_step(lcg_step(old(self).state)),
            r.x as int == -1000 + (lcg_step(old(self).state) as int) % 2001,
            r.y as int == if final(self).state % 2 == 0 {
                isqrt_spec(1_000_000 - r.x * r.x)
            } else {
                -isqrt_spec(1_000_000 - r.x * r.x)
            },
            -1000 <= r.x <= 1000,
            -1000 <= r.y <= 1000,
            998_000 <= len_sq_spec(r) <= 1_000_000,
    {
        let ux = self.sample_range(-1000, 1001);
        proof {
            assert(ux * ux <= 1_000_000) by (nonlinear_arith)
                requires -1000 <= ux <= 1000;
            assert(ux * ux >= 0) by (nonlinear_arith);
        }
        let rem = 1_000_000 - ux * ux;
        let uy_mag = isqrt(rem);
        proof {
            assert(is_isqrt(uy_mag as int, rem as int));
            assert(uy_mag * uy_mag <= rem);
            assert(uy_mag <= 1000) by (nonlinear_arith)
                requires uy_mag >= 0, (uy_mag as int) * (uy_mag as int) <= 1_000_000;
            // rem < (uy_mag + 1)^2, so ux^2 + uy_mag^2 > 1_000_000 - 2 * uy_mag - 1
            assert((uy_mag as int + 1) * (uy_mag as int + 1)
                == uy_mag * uy_mag + 2 * uy_mag + 1) by (nonlinear_arith);
        }
        let flip = self.sample_below(2);
        let uy = if flip == 0 { uy_mag } else { -uy_mag };
        proof {
            assert(uy * uy == uy_mag * uy_mag) by (nonlinear_arith)
                requires uy == uy_mag || uy == -uy_mag;
        }
        Vec2 { x: ux, y: uy }
    }
}

} // verus!
