//! Fixed-point arithmetic core.
//!
//! A real value `v` is stored as the `i64` nearest `v * FIXED_ONE`; every
//! operation that scales back down rounds toward zero, the rule captured by
//! [`tdiv`].  Square roots are computed by an exact integer square root.

use vstd::prelude::*;

verus! {

/// One fixed-point unit: the real value 1.0.
pub const FIXED_ONE: i64 = 10_000_000;

/// Largest accepted sphere radius (the real value 10 000.0), so that every
/// scaled coordinate stays far inside the `i64` range.
pub const MAX_RADIUS: i64 = 100_000_000_000;

/// Round-toward-zero division by a positive divisor, the rounding rule of
/// every fixed-point operation in this crate.
pub open spec fn tdiv(a: int, b: int) -> int {
    if a >= 0 {
        a / b
    } else {
        -((-a) / b)
    }
}

/// Fixed-point product: the exact product scaled back down by one unit,
/// rounded toward zero.
pub open spec fn fx_mul_spec(a: int, b: int) -> int {
    tdiv(a * b, FIXED_ONE as int)
}

/// Fixed-point square.
pub open spec fn fx_sq_spec(a: int) -> int {
    fx_mul_spec(a, a)
}

/// The integer square root, `floor(sqrt(n))`, defined by counting up.
pub open spec fn isqrt_spec(n: nat) -> nat
    decreases n,
{
    if n == 0 {
        0
    } else {
        let r = isqrt_spec((n - 1) as nat);
        if (r + 1) * (r + 1) <= n {
            r + 1
        } else {
            r
        }
    }
}

/// `isqrt_spec(n)` really is the integer square root: its square is at most
/// `n` and the next square is beyond `n`.
pub proof fn lemma_isqrt_spec_bounds(n: nat)
    ensures
        isqrt_spec(n) * isqrt_spec(n) <= n,
        n < (isqrt_spec(n) + 1) * (isqrt_spec(n) + 1),
    decreases n,
{
    if n == 0 {
        assert(isqrt_spec(0) == 0);
        assert(n < (isqrt_spec(n) + 1) * (isqrt_spec(n) + 1)) by (nonlinear_arith)
            requires n == 0, isqrt_spec(n) == 0;
    } else {
        lemma_isqrt_spec_bounds((n - 1) as nat);
        let r = isqrt_spec((n - 1) as nat);
        if (r + 1) * (r + 1) <= n {
            assert(isqrt_spec(n) == r + 1);
            assert(n <= (r + 1) * (r + 1)) by {
                assert(n - 1 < (r + 1) * (r + 1));
            }
            assert(n < (r + 2) * (r + 2)) by (nonlinear_arith)
                requires n <= (r + 1) * (r + 1);
            assert((isqrt_spec(n) + 1) * (isqrt_spec(n) + 1) == (r + 2) * (r + 2));
            assert(n < (isqrt_spec(n) + 1) * (isqrt_spec(n) + 1));
        } else {
            assert(isqrt_spec(n) == r);
            assert(r * r <= n - 1 <= n);
            assert(n < (r + 1) * (r + 1));
            assert(n < (isqrt_spec(n) + 1) * (isqrt_spec(n) + 1));
        }
    }
}

/// Any value bracketed between consecutive squares is the integer square root.
pub proof fn lemma_isqrt_unique(n: nat, r: nat)
    requires
        r * r <= n,
        n < (r + 1) * (r + 1),
    ensures
        r == isqrt_spec(n),
{
    let s = isqrt_spec(n);
    lemma_isqrt_spec_bounds(n);
    if r < s {
        assert((r + 1) * (r + 1) <= s * s) by (nonlinear_arith)
            requires r + 1 <= s;
    }
    if s < r {
        assert((s + 1) * (s + 1) <= r * r) by (nonlinear_arith)
            requires s + 1 <= r;
    }
}

/// A product is bounded by the product of the bounds.
pub proof fn lemma_mul_le(a: int, b: int, ma: int, mb: int)
    by (nonlinear_arith)
    requires
        -ma <= a <= ma,
        -mb <= b <= mb,
    ensures
        -(ma * mb) <= a * b <= ma * mb,
{
}

/// Truncating division by a positive divisor maps `[-m, m]` into
/// `[-(m / b), m / b]`, and shrinks magnitudes.
pub proof fn lemma_tdiv_range(a: int, b: int, m: int)
    requires
        b > 0,
        -m <= a <= m,
    ensures
        -(m / b) <= tdiv(a, b) <= m / b,
        a >= 0 ==> tdiv(a, b) >= 0,
        m / b <= m,
{
    vstd::arithmetic::div_mod::lemma_div_nonincreasing(m, b);
    if a >= 0 {
        vstd::arithmetic::div_mod::lemma_div_pos_is_pos(a, b);
        vstd::arithmetic::div_mod::lemma_div_is_ordered(a, m, b);
        vstd::arithmetic::div_mod::lemma_div_pos_is_pos(m, b);
    } else {
        vstd::arithmetic::div_mod::lemma_div_pos_is_pos(-a, b);
        vstd::arithmetic::div_mod::lemma_div_is_ordered(-a, m, b);
    }
}

/// Taking square roots preserves order: a square below a square is a value
/// below the value.
pub proof fn lemma_sq_le(x: int, b: int)
    by (nonlinear_arith)
    requires
        0 <= x,
        0 <= b,
        x * x <= b * b,
    ensures
        x <= b,
{
}

/// Exact integer square root by bisection.
pub fn isqrt(n: u64) -> (r: u64)
    requires
        n < 0x4000_0000_0000_0000,
    ensures
        r == isqrt_spec(n as nat),
        r * r <= n,
        n < (r + 1) * (r + 1),
{
    let mut lo: u64 = 0;
    let mut hi: u64 = 0x8000_0000;
    assert(hi * hi == 0x4000_0000_0000_0000) by (nonlinear_arith)
        requires hi == 0x8000_0000u64;
    while lo + 1 < hi
        invariant
            lo < hi <= 0x8000_0000,
            lo * lo <= n,
            n < hi * hi,
        decreases hi - lo,
    {
        let mid: u64 = lo + (hi - lo) / 2;
        assert(lo < mid < hi);
        assert(mid * mid < 0x4000_0000_0000_0000) by (nonlinear_arith)
            requires mid < 0x8000_0000u64;
        if mid * mid <= n {
            lo = mid;
        } else {
            hi = mid;
        }
    }
    proof {
        lemma_isqrt_unique(n as nat, lo as nat);
    }
    lo
}

/// Round-toward-zero division by a positive divisor.
pub fn div_trunc(a: i64, b: i64) -> (r: i64)
    requires
        b > 0,
        a > i64::MIN,
    ensures
        r == tdiv(a as int, b as int),
{
    if a >= 0 {
        let q: u64 = (a as u64) / (b as u64);
        q as i64
    } else {
        let q: u64 = ((-a) as u64) / (b as u64);
        assert(q <= (-a) as u64) by {
            vstd::arithmetic::div_mod::lemma_div_nonincreasing(-(a as int), b as int);
        }
        -(q as i64)
    }
}

/// Fixed-point multiplication: `a * b` scaled back down by one unit.
pub fn fx_mul(a: i64, b: i64) -> (r: i64)
    requires
        -0x7fff_ffff_ffff_ffff <= a * b <= 0x7fff_ffff_ffff_ffff,
    ensures
        r == fx_mul_spec(a as int, b as int),
{
    let p: i64 = a * b;
    div_trunc(p, FIXED_ONE)
}

} // verus!
