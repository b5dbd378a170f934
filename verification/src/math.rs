//! Integer helpers shared by the simulation: absolute value, truncating
//! scale-down of a coordinate, and an integer square root.

use vstd::prelude::*;
use vstd::arithmetic::div_mod::{lemma_div_is_ordered, lemma_div_multiples_vanish};
use vstd::arithmetic::mul::lemma_mul_inequality;

verus! {

/// Magnitude of `x` as a mathematical integer.
pub open spec fn abs_spec(x: int) -> int {
    if x >= 0 { x } else { -x }
}

/// `x * num / den` rounded toward zero, the rounding rule of machine
/// division applied to a signed product with `num, den > 0`.
pub open spec fn mul_div_trunc_spec(x: int, num: int, den: int) -> int {
    if x >= 0 {
        (x * num) / den
    } else {
        -((-x * num) / den)
    }
}

/// Floor of the real square root: the unique `r` with
/// `r * r <= n < (r + 1) * (r + 1)`.
pub open spec fn is_sqrt_floor(n: int, r: int) -> bool {
    0 <= r && r * r <= n && n < (r + 1) * (r + 1)
}

/// The floor square root as a function, pinned by `is_sqrt_floor`.
pub open spec fn sqrt_floor(n: int) -> int {
    choose|r: int| is_sqrt_floor(n, r)
}

/// `is_sqrt_floor` has at most one witness, so `sqrt_floor` agrees with
/// any witness in hand.
pub proof fn lemma_sqrt_floor_unique(n: int, r: int)
    requires
        is_sqrt_floor(n, r),
    ensures
        sqrt_floor(n) == r,
{
    let c = sqrt_floor(n);
    assert(is_sqrt_floor(n, c));
    if c < r {
        assert((c + 1) * (c + 1) <= r * r) by (nonlinear_arith)
            requires
                0 <= c,
                c + 1 <= r,
        ;
    }
    if r < c {
        assert((r + 1) * (r + 1) <= c * c) by (nonlinear_arith)
            requires
                0 <= r,
                r + 1 <= c,
        ;
    }
}

/// Every nonnegative integer has a floor square root, so `sqrt_floor`
/// satisfies its characterization.
pub proof fn lemma_sqrt_floor_exists(n: int)
    requires
        0 <= n,
    ensures
        is_sqrt_floor(n, sqrt_floor(n)),
    decreases n,
{
    if n == 0 {
        assert(is_sqrt_floor(0, 0));
    } else {
        lemma_sqrt_floor_exists(n - 1);
        let r = sqrt_floor(n - 1);
        if (r + 1) * (r + 1) <= n {
            assert(is_sqrt_floor(n, r + 1)) by (nonlinear_arith)
                requires
                    0 <= r,
                    r * r <= n - 1,
                    n - 1 < (r + 1) * (r + 1),
                    (r + 1) * (r + 1) <= n,
            ;
        } else {
            assert(is_sqrt_floor(n, r));
        }
        assert(exists|w: int| is_sqrt_floor(n, w));
    }
}

/// The magnitude of the truncating scale is the scaled magnitude.
pub proof fn lemma_mul_div_trunc_abs(x: int, num: int, den: int)
    requires
        0 < num,
        0 < den,
    ensures
        abs_spec(mul_div_trunc_spec(x, num, den)) == (abs_spec(x) * num) / den,
{
    if x >= 0 {
        assert(0 <= x * num) by (nonlinear_arith)
            requires
                0 <= x,
                0 < num,
        ;
        vstd::arithmetic::div_mod::lemma_div_pos_is_pos(x * num, den);
    } else {
        assert(0 <= -x * num) by (nonlinear_arith)
            requires
                x < 0,
                0 < num,
        ;
        vstd::arithmetic::div_mod::lemma_div_pos_is_pos(-x * num, den);
    }
}

/// Squaring keeps the order of nonnegative integers.
pub proof fn lemma_sq_le(a: int, b: int)
    requires
        0 <= a <= b,
    ensures
        a * a <= b * b,
{
    lemma_mul_inequality(a, b, a);
    lemma_mul_inequality(a, b, b);
    vstd::arithmetic::mul::lemma_mul_is_commutative(a, b);
}

/// A square does not see the sign of its root.
pub proof fn lemma_abs_sq(x: int)
    ensures
        abs_spec(x) * abs_spec(x) == x * x,
{
    if x < 0 {
        assert((-x) * (-x) == x * x) by (nonlinear_arith);
    }
}

/// A bound on a squared norm bounds each component.
pub proof fn lemma_norm_axis(x: int, y: int, lim: int)
    requires
        0 <= lim,
        x * x + y * y <= lim * lim,
    ensures
        -lim <= x <= lim,
        -lim <= y <= lim,
{
    assert(-lim <= x <= lim && -lim <= y <= lim) by (nonlinear_arith)
        requires
            0 <= lim,
            x * x + y * y <= lim * lim,
    ;
}

/// Scaling two components down by a common divisor larger than the norm
/// keeps the scaled norm under the target: the clamping step of the
/// ship's speed ceiling.
pub proof fn lemma_scaled_norm_bound(ax: int, ay: int, m: int, q: int, a: int, b: int)
    requires
        0 <= ax,
        0 <= ay,
        0 < m,
        0 < q,
        ax * ax + ay * ay < q * q,
        0 <= a <= (ax * m) / q,
        0 <= b <= (ay * m) / q,
    ensures
        a * a + b * b < m * m,
{
    assert(0 <= ax * m && 0 <= ay * m) by (nonlinear_arith)
        requires
            0 <= ax,
            0 <= ay,
            0 < m,
    ;
    lemma_mul_inequality(a, (ax * m) / q, q);
    lemma_mul_inequality(b, (ay * m) / q, q);
    assert(((ax * m) / q) * q <= ax * m) by {
        vstd::arithmetic::div_mod::lemma_fundamental_div_mod(ax * m, q);
        vstd::arithmetic::div_mod::lemma_mod_division_less_than_divisor(ax * m, q);
        vstd::arithmetic::mul::lemma_mul_is_commutative((ax * m) / q, q);
    }
    assert(((ay * m) / q) * q <= ay * m) by {
        vstd::arithmetic::div_mod::lemma_fundamental_div_mod(ay * m, q);
        vstd::arithmetic::div_mod::lemma_mod_division_less_than_divisor(ay * m, q);
        vstd::arithmetic::mul::lemma_mul_is_commutative((ay * m) / q, q);
    }
    assert(a * a + b * b < m * m) by (nonlinear_arith)
        requires
            0 <= a,
            0 <= b,
            0 <= ax * m,
            0 <= ay * m,
            a * q <= ax * m,
            b * q <= ay * m,
            ax * ax + ay * ay < q * q,
            0 < q,
            0 < m,
    ;
}

/// Magnitude of a bounded `i64`.
pub fn abs_i64(x: i64) -> (r: i64)
    requires
        x != i64::MIN,
    ensures
        r == abs_spec(x as int),
{
    if x >= 0 { x } else { -x }
}

/// `x * num / den` rounded toward zero; with `num <= den` the magnitude
/// never grows.
pub fn mul_div_trunc(x: i64, num: u64, den: u64) -> (r: i64)
    requires
        0 < num <= i64::MAX,
        0 < den <= i64::MAX,
        x != i64::MIN,
        abs_spec(x as int) * num <= i64::MAX,
    ensures
        r == mul_div_trunc_spec(x as int, num as int, den as int),
        num <= den ==> abs_spec(r as int) <= abs_spec(x as int),
{
    let m: u64 = abs_i64(x) as u64;
    assert(m * num <= i64::MAX);
    let p: u64 = m * num;
    let q: u64 = p / den;
    assert(q <= p) by {
        lemma_div_is_ordered(0, p as int, den as int);
        vstd::arithmetic::div_mod::lemma_div_nonincreasing(p as int, den as int);
    }
    proof {
        if num <= den {
            // q == m * num / den <= m * den / den == m
            vstd::arithmetic::mul::lemma_mul_inequality(num as int, den as int, m as int);
            vstd::arithmetic::mul::lemma_mul_is_commutative(m as int, num as int);
            vstd::arithmetic::mul::lemma_mul_is_commutative(m as int, den as int);
            lemma_div_is_ordered(m as int * num as int, m as int * den as int, den as int);
            lemma_div_multiples_vanish(m as int, den as int);
        }
    }
    if x >= 0 {
        q as i64
    } else {
        -(q as i64)
    }
}

/// Integer square root of `n` by bisection.
pub fn isqrt(n: u64) -> (r: u64)
    ensures
        is_sqrt_floor(n as int, r as int),
        r == sqrt_floor(n as int),
{
    if n == 0 {
        proof {
            lemma_sqrt_floor_unique(0, 0);
        }
        return 0;
    }
    let mut lo: u64 = 0;
    let mut hi: u64 = 1u64 << 32;
    assert((1u64 << 32) == 0x1_0000_0000u64) by (bit_vector);
    while lo + 1 < hi
        invariant
            lo < hi <= 0x1_0000_0000u64,
            lo * lo <= n,
            (n as int) < (hi as int) * (hi as int),
        decreases hi - lo,
    {
        let mid: u64 = lo + (hi - lo) / 2;
        assert(lo < mid < hi) by (bit_vector)
            requires
                lo + 1 < hi,
                mid == lo + (hi - lo) / 2,
        ;
        assert(mid * mid <= 0xffff_ffffu64 * 0xffff_ffffu64) by (nonlinear_arith)
            requires
                mid <= 0xffff_ffffu64,
        ;
        if mid * mid <= n {
            lo = mid;
        } else {
            hi = mid;
        }
    }
    proof {
        lemma_sqrt_floor_unique(n as int, lo as int);
    }
    lo
}

} // verus!
