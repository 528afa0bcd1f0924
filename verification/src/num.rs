//! Fixed-point arithmetic: the shared scale, truncating division, and an
//! integer square root.
//!
//! Every scalar in the crate is an integer with implicit denominator
//! [`SCALE`]: the stored value `1_500` stands for `1.5`. The machine-limit
//! constants below bound the inputs so that every intermediate product fits
//! the integer width it is computed in.
use vstd::prelude::*;

verus! {

/// Denominator of the fixed-point scalars used throughout the crate.
pub const SCALE: i64 = 1000;

/// Largest magnitude accepted for a tween endpoint.
pub const AMP_LIMIT: i64 = 1_000_000_000;

/// Bound on the value a tween can produce (endpoints at [`AMP_LIMIT`],
/// extrapolated by at most a factor of [`SCALE`]).
pub const TWEEN_OUT_LIMIT: i64 = 3_000_000_000_000;

/// Largest magnitude accepted for a position component.
pub const COORD_LIMIT: i64 = 1_000_000_000;

/// Largest magnitude of a direction component (a difference of positions).
pub const DIR_LIMIT: i64 = 2_000_000_000;

/// Largest collider radius.
pub const RADIUS_LIMIT: i64 = 1_000_000;

/// Largest finite collider mass.
pub const MASS_LIMIT: u64 = 1_000_000_000_000;

/// Largest clock period.
pub const PERIOD_LIMIT: u64 = 1_000_000_000_000;

/// Largest number of entities a collision scan accepts.
pub const MAX_ENTITIES: usize = 1_000_000;

/// Bound on one pair's pushback contribution: overlapping centers are
/// closer than the combined radius, so no component exceeds twice
/// [`RADIUS_LIMIT`].
pub const PUSH_LIMIT: i64 = 2_000_000;

/// Half of [`SCALE`]: the neutral mass weight used where the weight would
/// not be a number.
pub const HALF_SCALE: i64 = 500;

/// Division that rounds toward zero (the machine's signed division),
/// for a positive divisor.
pub open spec fn div_trunc(a: int, d: int) -> int {
    if a >= 0 {
        a / d
    } else {
        -((-a) / d)
    }
}

/// `a * b / d`, the division rounding toward zero.
pub open spec fn mul_div_trunc(a: int, b: int, d: int) -> int {
    div_trunc(a * b, d)
}

/// Floor of the real square root.
pub open spec fn sqrt_floor(n: nat) -> nat
    decreases n,
{
    if n == 0 {
        0
    } else {
        let r = sqrt_floor((n - 1) as nat);
        if (r + 1) * (r + 1) <= n {
            r + 1
        } else {
            r
        }
    }
}

/// `sqrt_floor(n)` is the unique integer whose square is at most `n` while
/// the next square exceeds `n`.
pub proof fn lemma_sqrt_floor_bounds(n: nat)
    ensures
        sqrt_floor(n) * sqrt_floor(n) <= n,
        n < (sqrt_floor(n) + 1) * (sqrt_floor(n) + 1),
    decreases n,
{
    let s = sqrt_floor(n);
    if n == 0 {
        assert(s * s <= n && n < (s + 1) * (s + 1)) by (nonlinear_arith)
            requires
                s == 0nat,
                n == 0nat,
        ;
    } else {
        lemma_sqrt_floor_bounds((n - 1) as nat);
        let r = sqrt_floor((n - 1) as nat);
        if (r + 1) * (r + 1) <= n {
            assert(s == r + 1);
            assert(s * s <= n && n < (s + 1) * (s + 1)) by (nonlinear_arith)
                requires
                    s == r + 1,
                    n - 1 < (r + 1) * (r + 1),
                    (r + 1) * (r + 1) <= n,
            ;
        } else {
            assert(s == r);
            assert(s * s <= n && n < (s + 1) * (s + 1)) by (nonlinear_arith)
                requires
                    s == r,
                    r * r <= n - 1,
                    (r + 1) * (r + 1) > n,
            ;
        }
    }
}

/// Any integer bracketing `n` between consecutive squares is `sqrt_floor(n)`.
pub proof fn lemma_sqrt_floor_unique(n: nat, r: nat)
    requires
        r * r <= n,
        n < (r + 1) * (r + 1),
    ensures
        r == sqrt_floor(n),
{
    lemma_sqrt_floor_bounds(n);
    let s = sqrt_floor(n);
    if r < s {
        assert((r + 1) * (r + 1) <= s * s) by (nonlinear_arith)
            requires
                r + 1 <= s,
        ;
    }
    if s < r {
        assert((s + 1) * (s + 1) <= r * r) by (nonlinear_arith)
            requires
                s + 1 <= r,
        ;
    }
}

/// The square root is monotone: a square below `n` has its root below
/// `sqrt_floor(n)`.
pub proof fn lemma_sqrt_floor_covers(n: nat, a: nat)
    requires
        a * a <= n,
    ensures
        a <= sqrt_floor(n),
{
    lemma_sqrt_floor_bounds(n);
    let s = sqrt_floor(n);
    if s < a {
        assert((s + 1) * (s + 1) <= a * a) by (nonlinear_arith)
            requires
                s + 1 <= a,
        ;
    }
}

/// Integer square root by bisection.
pub fn isqrt(n: u64) -> (r: u64)
    ensures
        r == sqrt_floor(n as nat),
        r * r <= n,
        n < (r + 1) * (r + 1),
{
    let mut lo: u64 = 0;
    let mut hi: u64 = 4_294_967_296;
    assert((hi as int) * (hi as int) > n as int) by (nonlinear_arith)
        requires
            hi == 4_294_967_296u64,
            n <= u64::MAX,
    ;
    while lo + 1 < hi
        invariant
            lo < hi <= 4_294_967_296u64,
            (lo as int) * (lo as int) <= n as int,
            (hi as int) * (hi as int) > n as int,
        decreases hi - lo,
    {
        let mid: u64 = lo + (hi - lo) / 2;
        assert((mid as u128) * (mid as u128) <= u128::MAX) by (nonlinear_arith)
            requires
                mid <= 4_294_967_296u64,
        ;
        let sq: u128 = (mid as u128) * (mid as u128);
        if sq <= n as u128 {
            lo = mid;
        } else {
            hi = mid;
        }
    }
    proof {
        lemma_sqrt_floor_unique(n as nat, lo as nat);
    }
    lo
}

} // verus!
