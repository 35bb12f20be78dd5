//! Fixed-point scalar arithmetic: truncating division and integer square
//! root, with the constants that fix the number format.

use vstd::arithmetic::div_mod::{
    lemma_div_is_ordered, lemma_div_multiples_vanish, lemma_div_nonincreasing,
    lemma_div_pos_is_pos,
};
use vstd::prelude::*;

verus! {

/// Number of fixed-point steps in one scene unit: every coordinate,
/// quaternion component and colour channel is an `i64` counting millionths.
pub const SCALE: i64 = 1_000_000;

/// Largest magnitude accepted for a coordinate of an input point
/// (in millionths, so 500 scene units). Inputs this small keep every
/// intermediate product of the solver inside `i64`.
pub const MAX_COORD: i64 = 500_000_000;

/// Division that rounds toward zero, the rounding rule of every
/// fixed-point quotient here. `/` on `int` is Euclidean division,
/// so the negative case is spelled out.
pub open spec fn div_t(a: int, b: int) -> int {
    if a >= 0 {
        a / b
    } else {
        -((-a) / b)
    }
}

/// The square root of `n` rounded down, defined by counting up.
pub open spec fn sqrt_floor(n: int) -> int
    decreases n,
{
    if n <= 0 {
        0
    } else {
        let p = sqrt_floor(n - 1);
        if (p + 1) * (p + 1) <= n {
            p + 1
        } else {
            p
        }
    }
}

/// `sqrt_floor(n)` is the unique integer whose square is at most `n`
/// while the next square is beyond `n`.
pub proof fn lemma_sqrt_floor_props(n: int)
    requires
        n >= 0,
    ensures
        sqrt_floor(n) >= 0,
        sqrt_floor(n) * sqrt_floor(n) <= n,
        n < (sqrt_floor(n) + 1) * (sqrt_floor(n) + 1),
        n >= 1 ==> sqrt_floor(n) >= 1,
        n == 0 ==> sqrt_floor(n) == 0,
    decreases n,
{
    if n == 0 {
    } else {
        lemma_sqrt_floor_props(n - 1);
        let p = sqrt_floor(n - 1);
        if (p + 1) * (p + 1) <= n {
            assert((p + 1) * (p + 1) < (p + 2) * (p + 2)) by (nonlinear_arith)
                requires
                    p >= 0,
            ;
        }
    }
    let s = sqrt_floor(n);
    if n >= 1 && s == 0 {
        assert((s + 1) * (s + 1) == 1) by (nonlinear_arith)
            requires
                s == 0,
        ;
    }
}

/// Any integer meeting the square-root characterization is `sqrt_floor(n)`.
pub proof fn lemma_sqrt_floor_unique(n: int, r: int)
    requires
        n >= 0,
        r >= 0,
        r * r <= n,
        n < (r + 1) * (r + 1),
    ensures
        r == sqrt_floor(n),
{
    lemma_sqrt_floor_props(n);
    let s = sqrt_floor(n);
    if r < s {
        assert((r + 1) * (r + 1) <= s * s) by (nonlinear_arith)
            requires
                0 <= r,
                r < s,
        ;
    } else if s < r {
        assert((s + 1) * (s + 1) <= r * r) by (nonlinear_arith)
            requires
                0 <= s,
                s < r,
        ;
    }
}

/// Magnitudes multiply: the product of two bounded factors is bounded by
/// the product of the bounds.
pub proof fn lemma_mul_bound(a: int, b: int, ma: int, mb: int)
    by (nonlinear_arith)
    requires
        -ma <= a <= ma,
        -mb <= b <= mb,
    ensures
        -(ma * mb) <= a * b <= ma * mb,
{
}

/// A quotient by `b` of something at most `b * c` in magnitude is at most
/// `c` in magnitude.
pub proof fn lemma_div_t_scaled_bound(a: int, b: int, c: int)
    requires
        b >= 1,
        c >= 0,
        -(b * c) <= a <= b * c,
    ensures
        -c <= div_t(a, b) <= c,
{
    lemma_div_multiples_vanish(c, b);
    if a >= 0 {
        lemma_div_pos_is_pos(a, b);
        lemma_div_is_ordered(a, b * c, b);
    } else {
        lemma_div_pos_is_pos(-a, b);
        lemma_div_is_ordered(-a, b * c, b);
    }
}

/// Dividing an exact multiple is exact, whatever the sign.
pub proof fn lemma_div_t_exact(a: int, b: int)
    requires
        b >= 1,
    ensures
        div_t(b * a, b) == a,
{
    lemma_div_multiples_vanish(a, b);
    assert(b * a >= 0 <==> a >= 0) by (nonlinear_arith)
        requires
            b >= 1,
    ;
    if b * a < 0 {
        lemma_div_multiples_vanish(-a, b);
        assert(-(b * a) == b * (-a)) by (nonlinear_arith);
    }
}

/// Truncating division on machine integers; the result is never larger in
/// magnitude than the dividend.
pub fn div_trunc(a: i64, b: i64) -> (r: i64)
    requires
        b >= 1,
        a > i64::MIN,
    ensures
        r == div_t(a as int, b as int),
        a >= 0 ==> 0 <= r <= a,
        a < 0 ==> a <= r <= 0,
{
    if a >= 0 {
        let q = (a as u64) / (b as u64);
        proof {
            lemma_div_pos_is_pos(a as int, b as int);
            lemma_div_nonincreasing(a as int, b as int);
        }
        q as i64
    } else {
        let m = -a;
        let q = (m as u64) / (b as u64);
        proof {
            lemma_div_pos_is_pos(m as int, b as int);
            lemma_div_nonincreasing(m as int, b as int);
        }
        -(q as i64)
    }
}

/// Integer square root by bisection.
pub fn isqrt(n: u64) -> (r: u64)
    requires
        n <= 4_000_000_000_000_000_000,
    ensures
        r == sqrt_floor(n as int),
        r < 2_147_483_648,
{
    let mut lo: u64 = 0;
    let mut hi: u64 = 2_147_483_648;
    assert(n < hi * hi) by (nonlinear_arith)
        requires
            n <= 4_000_000_000_000_000_000,
            hi == 2_147_483_648,
    ;
    while lo + 1 < hi
        invariant
            lo < hi,
            hi <= 2_147_483_648,
            lo * lo <= n,
            n < hi * hi,
        decreases hi - lo,
    {
        let mid = lo + (hi - lo) / 2;
        assert(lo < mid < hi);
        assert(mid * mid < 0x8000_0000_0000_0000) by (nonlinear_arith)
            requires
                mid < 2_147_483_648,
        ;
        if mid * mid <= n {
            lo = mid;
        } else {
            hi = mid;
        }
    }
    proof {
        lemma_sqrt_floor_unique(n as int, lo as int);
    }
    lo
}

} // verus!
