//! Fixed-point helpers: truncating signed division, integer square root,
//! and the cubic fixed-point sine that drives paddle deflection.

use vstd::prelude::*;

verus! {

/// Quarter turn (pi / 4) in microradians, rounded to the nearest integer.
pub const QUARTER_PI_MICRO: i64 = 785398;

/// Divisor of the cubic term of the sine approximation: `6 * 10^6 * 10^6`,
/// so that `x - x^3 / SIN_CUBIC_DIV` stays in microunits when `x` does.
pub const SIN_CUBIC_DIV: i64 = 6_000_000_000_000;

/// Truncating (round-toward-zero) signed division, the convention every
/// fixed-point computation of this crate uses. Meaningful for `b > 0`.
pub open spec fn tdiv(a: int, b: int) -> int {
    if a >= 0 {
        a / b
    } else {
        -((-a) / b)
    }
}

/// Truncating division computes the quotient of the magnitudes, with the
/// sign of the dividend.
pub proof fn lemma_tdiv_abs(a: int, b: int)
    requires
        b >= 1,
    ensures
        vstd::math::abs(tdiv(a, b)) == vstd::math::abs(a) as int / b,
        a >= 0 ==> tdiv(a, b) >= 0,
        a <= 0 ==> tdiv(a, b) <= 0,
{
    if a >= 0 {
        vstd::arithmetic::div_mod::lemma_div_pos_is_pos(a, b);
    } else {
        vstd::arithmetic::div_mod::lemma_div_pos_is_pos(-a, b);
    }
}

/// A bound on the dividend gives the same bound, scaled down, on the
/// magnitude of a truncating quotient.
pub proof fn lemma_tdiv_bound(a: int, b: int, k: int)
    requires
        b >= 1,
        k >= 0,
        vstd::math::abs(a) <= k * b,
    ensures
        -k <= tdiv(a, b) <= k,
{
    lemma_tdiv_abs(a, b);
    vstd::arithmetic::div_mod::lemma_div_is_ordered(vstd::math::abs(a) as int, k * b, b);
    vstd::arithmetic::div_mod::lemma_div_multiples_vanish(k, b);
    assert(k * b == b * k) by (nonlinear_arith);
    assert((k * b) / b == k);
    assert(vstd::math::abs(tdiv(a, b)) <= k);
}

/// Truncating signed division on machine integers.
pub fn tdiv_i64(a: i64, b: i64) -> (q: i64)
    requires
        b >= 1,
        a > i64::MIN,
    ensures
        q == tdiv(a as int, b as int),
{
    proof {
        lemma_tdiv_abs(a as int, b as int);
        vstd::arithmetic::div_mod::lemma_div_is_ordered_by_denominator(
            vstd::math::abs(a as int) as int,
            1,
            b as int,
        );
        vstd::arithmetic::div_mod::lemma_div_basics(vstd::math::abs(a as int) as int);
    }
    if a >= 0 {
        ((a as u64) / (b as u64)) as i64
    } else {
        let m = ((-a) as u64) / (b as u64);
        -(m as i64)
    }
}

/// Floor of the square root of a natural number.
pub open spec fn isqrt(n: nat) -> nat
    decreases n,
{
    if n == 0 {
        0
    } else {
        let p = isqrt((n - 1) as nat);
        if (p + 1) * (p + 1) <= n {
            p + 1
        } else {
            p
        }
    }
}

/// `isqrt` really is the floor of the square root.
pub proof fn lemma_isqrt_bounds(n: nat)
    ensures
        isqrt(n) * isqrt(n) <= n,
        n < (isqrt(n) + 1) * (isqrt(n) + 1),
    decreases n,
{
    if n == 0 {
        assert(isqrt(n) == 0);
        assert(n < (isqrt(n) + 1) * (isqrt(n) + 1)) by (nonlinear_arith)
            requires
                n == 0,
                isqrt(n) == 0,
        ;
    } else {
        let p = isqrt((n - 1) as nat);
        lemma_isqrt_bounds((n - 1) as nat);
        if (p + 1) * (p + 1) <= n {
            assert(isqrt(n) == p + 1);
            assert(n <= (p + 1) * (p + 1));
            assert(n < (p + 2) * (p + 2)) by (nonlinear_arith)
                requires
                    n <= (p + 1) * (p + 1),
                    p >= 0,
            ;
            assert((isqrt(n) + 1) * (isqrt(n) + 1) == (p + 2) * (p + 2));
            assert(n < (isqrt(n) + 1) * (isqrt(n) + 1));
        } else {
            assert(isqrt(n) == p);
            assert(n < (p + 1) * (p + 1));
            assert(n < (isqrt(n) + 1) * (isqrt(n) + 1));
        }
    }
}

/// Any value squeezed between consecutive squares is the floor square root.
pub proof fn lemma_isqrt_unique(n: nat, r: nat)
    requires
        r * r <= n,
        n < (r + 1) * (r + 1),
    ensures
        r == isqrt(n),
{
    lemma_isqrt_bounds(n);
    let s = isqrt(n);
    assert(r == s) by (nonlinear_arith)
        requires
            r * r <= n,
            n < (r + 1) * (r + 1),
            s * s <= n,
            n < (s + 1) * (s + 1),
            r >= 0,
            s >= 0;
}

/// The square root floor grows no faster than the sum of the magnitudes of
/// the two legs: `isqrt(x^2 + y^2) <= |x| + |y|`.
pub proof fn lemma_isqrt_of_squares(x: int, y: int)
    ensures
        isqrt((x * x + y * y) as nat) <= vstd::math::abs(x) + vstd::math::abs(y),
{
    let ax = vstd::math::abs(x);
    let ay = vstd::math::abs(y);
    assert(x * x == ax * ax && y * y == ay * ay) by (nonlinear_arith)
        requires ax == vstd::math::abs(x), ay == vstd::math::abs(y);
    let n = (x * x + y * y) as nat;
    assert(n <= (ax + ay) * (ax + ay)) by (nonlinear_arith)
        requires n == ax * ax + ay * ay;
    lemma_isqrt_bounds(n);
    let r = isqrt(n);
    assert(r <= ax + ay) by (nonlinear_arith)
        requires
            r * r <= n,
            n <= (ax + ay) * (ax + ay),
            r >= 0;
}

/// Binary-search integer square root.
pub fn isqrt_u64(n: u64) -> (r: u64)
    requires
        n < 0x4000_0000_0000_0000,
    ensures
        r == isqrt(n as nat),
        r * r <= n,
        n < (r + 1) * (r + 1),
{
    let mut lo: u64 = 0;
    let mut hi: u64 = 0x8000_0000;
    assert(hi * hi > n);
    while hi - lo > 1
        invariant
            lo < hi <= 0x8000_0000,
            lo * lo <= n,
            n < hi * hi,
        decreases hi - lo,
    {
        let mid = lo + (hi - lo) / 2;
        assert(lo < mid < hi);
        proof {
            assert((mid as int) * (mid as int) <= 0x4000_0000_0000_0000) by (nonlinear_arith)
                requires mid <= 0x8000_0000u64;
        }
        if mid * mid <= n {
            lo = mid;
        } else {
            hi = mid;
        }
    }
    proof {
        lemma_isqrt_unique(n as nat, lo as nat);
    }
    lo
}

/// Deflection angle, in microradians, for a contact offset expressed as
/// `t = 2 * offset - 1` in milliunits: `phi = (pi / 4) * t`.
pub open spec fn phi_micro(t: int) -> int {
    tdiv(QUARTER_PI_MICRO * t, 1000)
}

/// Cubic fixed-point sine in microunits for a microradian argument:
/// `sin x ~ x - x^3 / 6`. Meaningful on `[-pi/4, pi/4]`.
pub open spec fn sin_micro(x: int) -> int {
    x - tdiv(x * x * x, SIN_CUBIC_DIV as int)
}

/// On the quarter-circle domain the sine approximation never exceeds its
/// argument in magnitude and never flips its sign.
pub proof fn lemma_sin_micro_abs(x: int)
    requires
        -QUARTER_PI_MICRO <= x <= QUARTER_PI_MICRO,
    ensures
        vstd::math::abs(sin_micro(x)) <= vstd::math::abs(x),
        x >= 0 ==> sin_micro(x) >= 0,
        x <= 0 ==> sin_micro(x) <= 0,
{
    let c = x * x * x;
    let d = tdiv(c, SIN_CUBIC_DIV as int);
    assert(vstd::math::abs(c) <= vstd::math::abs(x) * (SIN_CUBIC_DIV as int)) by (nonlinear_arith)
        requires -QUARTER_PI_MICRO <= x <= QUARTER_PI_MICRO, c == x * x * x;
    lemma_tdiv_bound(c, SIN_CUBIC_DIV as int, vstd::math::abs(x) as int);
    lemma_tdiv_abs(c, SIN_CUBIC_DIV as int);
    assert(x >= 0 ==> c >= 0) by (nonlinear_arith)
        requires c == x * x * x;
    assert(x <= 0 ==> c <= 0) by (nonlinear_arith)
        requires c == x * x * x;
}

/// Executable deflection angle.
pub fn phi_micro_i64(t: i64) -> (r: i64)
    requires
        -1000 <= t <= 1000,
    ensures
        r == phi_micro(t as int),
        -QUARTER_PI_MICRO <= r <= QUARTER_PI_MICRO,
{
    proof {
        lemma_tdiv_bound(QUARTER_PI_MICRO * t, 1000, QUARTER_PI_MICRO as int);
    }
    tdiv_i64(QUARTER_PI_MICRO * t, 1000)
}

/// Executable cubic sine.
pub fn sin_micro_i64(x: i64) -> (r: i64)
    requires
        -QUARTER_PI_MICRO <= x <= QUARTER_PI_MICRO,
    ensures
        r == sin_micro(x as int),
        -QUARTER_PI_MICRO <= r <= QUARTER_PI_MICRO,
{
    proof {
        assert(0 <= (x as int) * (x as int) <= 0x1_0000_0000_0000) by (nonlinear_arith)
            requires -QUARTER_PI_MICRO <= x <= QUARTER_PI_MICRO;
    }
    let sq = x * x;
    proof {
        assert(-0x7000_0000_0000_0000 < (sq as int) * (x as int) < 0x7000_0000_0000_0000)
            by (nonlinear_arith)
            requires
                -QUARTER_PI_MICRO <= x <= QUARTER_PI_MICRO,
                sq == (x as int) * (x as int),
        ;
        lemma_sin_micro_abs(x as int);
        assert(vstd::math::abs((x as int) * (x as int) * (x as int))
            <= vstd::math::abs(x as int) * (SIN_CUBIC_DIV as int)) by (nonlinear_arith)
            requires -QUARTER_PI_MICRO <= x <= QUARTER_PI_MICRO;
        lemma_tdiv_bound(
            (x as int) * (x as int) * (x as int),
            SIN_CUBIC_DIV as int,
            vstd::math::abs(x as int) as int,
        );
    }
    let cube = sq * x;
    x - tdiv_i64(cube, SIN_CUBIC_DIV)
}

} // verus!
