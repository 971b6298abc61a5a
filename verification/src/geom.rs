//! Fixed-point planar geometry: vectors, exact squared lengths, an integer
//! square root, and a sign-aware scaled multiply-divide.
//!
//! Coordinates are `i64` values in thousandths of a world unit.  Keeping
//! every coordinate within [`COORD_LIMIT`] makes all squared lengths fit an
//! `i64` with room to spare.
use vstd::prelude::*;

verus! {

/// Largest coordinate magnitude the simulation works with (one million
/// world units, scaled).
pub const COORD_LIMIT: i64 = 1_000_000_000;

/// A planar vector in fixed-point world coordinates.
#[derive(Clone, Copy, PartialEq, Eq, Structural, Debug)]
pub struct Vec2 {
    pub x: i64,
    pub y: i64,
}

/// Both coordinates lie within the simulation's coordinate bound.
pub open spec fn in_coord_range(v: Vec2) -> bool {
    &&& -COORD_LIMIT <= v.x <= COORD_LIMIT
    &&& -COORD_LIMIT <= v.y <= COORD_LIMIT
}

/// Squared Euclidean length, as an unbounded integer.
pub open spec fn len_sq_spec(v: Vec2) -> int {
    v.x * v.x + v.y * v.y
}

impl Vec2 {
    /// The zero vector.
    pub open spec fn zero_spec() -> Vec2 {
        Vec2 { x: 0, y: 0 }
    }

    /// Build the zero vector.
    pub fn zero() -> (r: Vec2)
        ensures
            r == Vec2::zero_spec(),
    {
        Vec2 { x: 0, y: 0 }
    }

    /// Componentwise difference.
    pub fn minus(self, other: Vec2) -> (r: Vec2)
        requires
            in_coord_range(self),
            in_coord_range(other),
        ensures
            r.x == self.x - other.x,
            r.y == self.y - other.y,
    {
        Vec2 { x: self.x - other.x, y: self.y - other.y }
    }

    /// Componentwise sum.
    pub fn plus(self, other: Vec2) -> (r: Vec2)
        requires
            in_coord_range(self),
            in_coord_range(other),
        ensures
            r.x == self.x + other.x,
            r.y == self.y + other.y,
    {
        Vec2 { x: self.x + other.x, y: self.y + other.y }
    }

    /// Exact squared length.  Accepts difference vectors, whose coordinates
    /// may reach twice the coordinate bound.
    pub fn len_sq(self) -> (r: i64)
        requires
            -2 * COORD_LIMIT <= self.x <= 2 * COORD_LIMIT,
            -2 * COORD_LIMIT <= self.y <= 2 * COORD_LIMIT,
        ensures
            r == len_sq_spec(self),
            r >= 0,
    {
        proof {
            assert(self.x * self.x <= 4_000_000_000_000_000_000 && self.x * self.x >= 0)
                by (nonlinear_arith)
                requires -2_000_000_000 <= self.x <= 2_000_000_000;
            assert(self.y * self.y <= 4_000_000_000_000_000_000 && self.y * self.y >= 0)
                by (nonlinear_arith)
                requires -2_000_000_000 <= self.y <= 2_000_000_000;
        }
        self.x * self.x + self.y * self.y
    }
}

/// `r` is the integer square root of `n`.
pub open spec fn is_isqrt(r: int, n: int) -> bool {
    &&& 0 <= r
    &&& r * r <= n
    &&& n < (r + 1) * (r + 1)
}

/// The integer square root of `n`, as a mathematical function.
pub open spec fn isqrt_spec(n: int) -> int {
    choose|r: int| is_isqrt(r, n)
}

/// The integer square root is unique.
pub proof fn lemma_isqrt_unique(n: int, a: int, b: int)
    requires
        is_isqrt(a, n),
        is_isqrt(b, n),
    ensures
        a == b,
{
    if a < b {
        assert(false) by (nonlinear_arith)
            requires 0 <= a, a + 1 <= b, b * b <= n, n < (a + 1) * (a + 1);
    }
    if b < a {
        assert(false) by (nonlinear_arith)
            requires 0 <= b, b + 1 <= a, a * a <= n, n < (b + 1) * (b + 1);
    }
}

/// Any witness of `is_isqrt` is the value of `isqrt_spec`.
pub proof fn lemma_isqrt_spec_of_witness(n: int, r: int)
    requires
        is_isqrt(r, n),
    ensures
        isqrt_spec(n) == r,
{
    assert(exists|q: int| is_isqrt(q, n)) by {
        assert(is_isqrt(r, n));
    }
    assert(is_isqrt(isqrt_spec(n), n));
    lemma_isqrt_unique(n, r, isqrt_spec(n));
}

/// Integer square root by bisection.
pub fn isqrt(n: i64) -> (r: i64)
    requires
        0 <= n,
    ensures
        is_isqrt(r as int, n as int),
        r == isqrt_spec(n as int),
{
    let mut lo: i64 = 0;
    let mut hi: i64 = 3_037_000_499;
    proof {
        assert((3_037_000_499i64 + 1) * (3_037_000_499i64 + 1) > i64::MAX);
    }
    while lo < hi
        invariant
            0 <= lo <= hi <= 3_037_000_499,
            lo * lo <= n,
            n < (hi + 1) * (hi + 1),
        decreases hi - lo,
    {
        let mid = lo + (hi - lo + 1) / 2;
        proof {
            assert(mid * mid <= 3_037_000_499i64 * 3_037_000_499i64) by (nonlinear_arith)
                requires 0 <= mid <= 3_037_000_499i64;
        }
        if mid * mid <= n {
            lo = mid;
        } else {
            hi = mid - 1;
        }
    }
    proof {
        lemma_isqrt_spec_of_witness(n as int, lo as int);
    }
    lo
}

/// Sign-aware `a * m / d` with the division carried out on magnitudes, so
/// that it truncates toward zero exactly as the executable code does.
pub open spec fn mul_div_spec(a: int, m: int, d: int) -> int {
    if a >= 0 {
        (a * m) / d
    } else {
        -(((-a) * m) / d)
    }
}

/// Scale `a` by the nonnegative ratio `m / d`, truncating toward zero.
pub fn mul_div(a: i64, m: i64, d: i64) -> (r: i64)
    requires
        0 <= m,
        0 < d,
        i64::MIN < a,
        a >= 0 ==> a * m <= i64::MAX,
        a < 0 ==> (-a) * m <= i64::MAX,
    ensures
        r == mul_div_spec(a as int, m as int, d as int),
        a >= 0 ==> 0 <= r <= (a as int) * (m as int) / (d as int),
        a < 0 ==> 0 >= r >= -((-(a as int)) * (m as int) / (d as int)),
{
    if a >= 0 {
        proof {
            let p = (a as int) * (m as int);
            assert(p >= 0) by (nonlinear_arith)
                requires a >= 0, m >= 0, p == (a as int) * (m as int);
            assert(p / (d as int) >= 0 && p / (d as int) <= p) by (nonlinear_arith)
                requires p >= 0, d > 0;
        }
        (a * m) / d
    } else {
        let neg = -a;
        proof {
            let p = (neg as int) * (m as int);
            assert(p >= 0) by (nonlinear_arith)
                requires neg >= 0, m >= 0, p == (neg as int) * (m as int);
            assert(p / (d as int) >= 0 && p / (d as int) <= p) by (nonlinear_arith)
                requires p >= 0, d > 0;
        }
        -((neg * m) / d)
    }
}

} // verus!
