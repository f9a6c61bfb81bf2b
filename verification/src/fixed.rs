//! Saturating 16.16 fixed-point arithmetic.
//!
//! A scalar is an `i64` carrying 16 fractional bits: the real number `v` is
//! stored as `v * 65536`, rounded toward minus infinity. Every operation
//! saturates its result into `[-FX_LIM, FX_LIM]`, so all operations are total
//! and no caller ever needs an overflow precondition. Intermediate products
//! are taken in `i128`, where a product of two `i64` values cannot overflow.

use vstd::prelude::*;

verus! {

/// One in fixed point: 2^16.
pub const FX_ONE: i64 = 65536;

/// Half in fixed point, used for rounding to the nearest integer.
pub const FX_HALF: i64 = 32768;

/// Greatest magnitude a fixed-point scalar may take (2^47). Results of all
/// operations are clamped into `[-FX_LIM, FX_LIM]`.
pub const FX_LIM: i64 = 140737488355328;

/// A quarter turn (pi/2) in fixed-point radians, rounded down.
pub const FX_PI_HALF: i64 = 102943;

/// A full turn in fixed-point radians; exactly four quarter turns, so that
/// quadrant reduction is exact.
pub const FX_TWO_PI: i64 = 411772;

/// Whether a value lies in the saturated fixed-point domain.
pub open spec fn fx_ok(v: int) -> bool {
    -FX_LIM <= v <= FX_LIM
}

/// Clamp an unbounded integer into the fixed-point domain.
pub open spec fn spec_sat(v: int) -> int {
    if v > FX_LIM {
        FX_LIM as int
    } else if v < -FX_LIM {
        -FX_LIM as int
    } else {
        v
    }
}

/// Saturating fixed-point addition.
pub open spec fn spec_fx_add(a: int, b: int) -> int {
    spec_sat(a + b)
}

/// Saturating fixed-point subtraction.
pub open spec fn spec_fx_sub(a: int, b: int) -> int {
    spec_sat(a - b)
}

/// Saturating fixed-point multiplication: the real product, scaled back down
/// and rounded toward minus infinity.
pub open spec fn spec_fx_mul(a: int, b: int) -> int {
    spec_sat((a * b) / (FX_ONE as int))
}

/// Saturating fixed-point division by a positive divisor.
pub open spec fn spec_fx_div(a: int, b: int) -> int
    recommends
        b > 0,
{
    spec_sat((a * FX_ONE) / b)
}

/// Clamp `v` into `[lo, hi]`.
pub open spec fn spec_clamp(v: int, lo: int, hi: int) -> int
    recommends
        lo <= hi,
{
    if v < lo {
        lo
    } else if v > hi {
        hi
    } else {
        v
    }
}

/// Floor of the nonnegative square root, defined by counting up.
pub open spec fn spec_isqrt(n: int) -> int
    recommends
        n >= 0,
    decreases n,
{
    if n <= 0 {
        0
    } else {
        let r = spec_isqrt(n - 1);
        if (r + 1) * (r + 1) <= n {
            r + 1
        } else {
            r
        }
    }
}

/// `spec_isqrt` is the floor of the square root.
pub proof fn lemma_isqrt_bounds(n: int)
    requires
        n >= 0,
    ensures
        spec_isqrt(n) >= 0,
        spec_isqrt(n) * spec_isqrt(n) <= n,
        n < (spec_isqrt(n) + 1) * (spec_isqrt(n) + 1),
    decreases n,
{
    if n == 0 {
    } else {
        lemma_isqrt_bounds(n - 1);
        let r = spec_isqrt(n - 1);
        if (r + 1) * (r + 1) <= n {
            assert(n < (r + 2) * (r + 2)) by (nonlinear_arith)
                requires
                    n - 1 < (r + 1) * (r + 1),
                    r >= 0;
        }
    }
}

/// Any value satisfying the floor-square-root bounds equals `spec_isqrt`.
pub proof fn lemma_isqrt_unique(n: int, r: int)
    requires
        n >= 0,
        r >= 0,
        r * r <= n,
        n < (r + 1) * (r + 1),
    ensures
        r == spec_isqrt(n),
{
    let s = spec_isqrt(n);
    lemma_isqrt_bounds(n);
    assert(r == s) by (nonlinear_arith)
        requires
            r >= 0,
            s >= 0,
            r * r <= n,
            n < (r + 1) * (r + 1),
            s * s <= n,
            n < (s + 1) * (s + 1);
}

/// Clamp an unbounded integer into the fixed-point domain, as an `i64`.
pub open spec fn sat64(v: int) -> i64 {
    spec_sat(v) as i64
}

/// Clamp a stored scalar into the fixed-point domain (the identity on every
/// value an operation of this crate can produce).
pub open spec fn clv(v: i64) -> int {
    spec_clamp(v as int, -FX_LIM as int, FX_LIM as int)
}

/// A product of two values from the fixed-point domain stays below 2^94.
pub proof fn lemma_fx_prod_bounds(a: int, b: int)
    by (nonlinear_arith)
    requires
        -FX_LIM <= a <= FX_LIM,
        -FX_LIM <= b <= FX_LIM,
    ensures
        -19807040628566084398385987584 <= a * b <= 19807040628566084398385987584,
{
}

/// A product of two `i64` values fits comfortably in `i128`.
pub proof fn lemma_i64_prod_bounds(a: int, b: int)
    by (nonlinear_arith)
    requires
        -9223372036854775808 <= a <= 9223372036854775807,
        -9223372036854775808 <= b <= 9223372036854775807,
    ensures
        -85070591730234615865843651857942052864 <= a * b
            <= 85070591730234615865843651857942052864,
{
}

/// A product is bounded by the product of the factors' bounds.
pub proof fn lemma_prod_bound(a: int, b: int, ba: int, bb: int)
    by (nonlinear_arith)
    requires
        -ba <= a <= ba,
        -bb <= b <= bb,
        0 <= ba,
        0 <= bb,
    ensures
        -(ba * bb) <= a * b <= ba * bb,
{
}

/// Flooring division by a positive divisor moves a value toward zero.
pub proof fn lemma_div_shrinks(v: int, d: int)
    requires
        d >= 1,
    ensures
        v >= 0 ==> 0 <= v / d <= v,
        v < 0 ==> v <= v / d <= 0,
{
    if v >= 0 {
        vstd::arithmetic::div_mod::lemma_div_pos_is_pos(v, d);
        vstd::arithmetic::div_mod::lemma_div_nonincreasing(v, d);
    } else {
        let q = v / d;
        let r = v % d;
        vstd::arithmetic::div_mod::lemma_fundamental_div_mod(v, d);
        vstd::arithmetic::div_mod::lemma_mod_bound(v, d);
        assert(v <= q <= 0) by (nonlinear_arith)
            requires
                v == d * q + r,
                0 <= r < d,
                1 <= d,
                v < 0;
    }
}

/// Interpolating between two bounded values stays within their bound:
/// `(i * d) / m` lies in `[-bnd, bnd]` whenever `0 <= i <= m` and `|d| <= bnd`.
pub proof fn lemma_mul_div_bound(i: int, m: int, d: int, bnd: int)
    requires
        0 <= i <= m,
        1 <= m,
        -bnd <= d <= bnd,
        0 <= bnd,
    ensures
        -bnd <= (i * d) / m <= bnd,
{
    assert(-(m * bnd) <= i * d <= m * bnd) by (nonlinear_arith)
        requires
            0 <= i <= m,
            -bnd <= d <= bnd,
            0 <= bnd;
    vstd::arithmetic::div_mod::lemma_div_is_ordered(i * d, m * bnd, m);
    vstd::arithmetic::div_mod::lemma_div_is_ordered(-(m * bnd), i * d, m);
    assert(-(m * bnd) == m * (-bnd)) by (nonlinear_arith);
    vstd::arithmetic::div_mod::lemma_div_multiples_vanish(bnd, m);
    vstd::arithmetic::div_mod::lemma_div_multiples_vanish(-bnd, m);
}

/// Division that rounds toward minus infinity, matching the meaning of `/`
/// on `int` for a positive divisor.
pub fn div_floor(n: i128, d: i128) -> (q: i128)
    requires
        d >= 1,
        n >= i128::MIN + d,
    ensures
        q == n as int / d as int,
{
    if n >= 0 {
        let q: u128 = (n as u128) / (d as u128);
        q as i128
    } else {
        let m: u128 = (-n) as u128;
        let dd: u128 = d as u128;
        let q0: u128 = (m + dd - 1) / dd;
        proof {
            lemma_div_neg_via_ceil(m as int, d as int);
        }
        -(q0 as i128)
    }
}

/// For a positive divisor, flooring a negative dividend is the negated
/// ceiling of its magnitude.
proof fn lemma_div_neg_via_ceil(m: int, d: int)
    requires
        m > 0,
        d > 0,
    ensures
        (-m) / d == -((m + d - 1) / d),
{
    let q1 = (m + d - 1) / d;
    let r1 = (m + d - 1) % d;
    let q2 = (-m) / d;
    let r2 = (-m) % d;
    vstd::arithmetic::div_mod::lemma_fundamental_div_mod(m + d - 1, d);
    vstd::arithmetic::div_mod::lemma_fundamental_div_mod(-m, d);
    vstd::arithmetic::div_mod::lemma_mod_bound(m + d - 1, d);
    vstd::arithmetic::div_mod::lemma_mod_bound(-m, d);
    assert(d * (q1 + q2) == d - 1 - r1 - r2) by (nonlinear_arith)
        requires
            m + d - 1 == d * q1 + r1,
            -m == d * q2 + r2;
    assert(q1 + q2 == 0) by (nonlinear_arith)
        requires
            d * (q1 + q2) == d - 1 - r1 - r2,
            0 <= r1 < d,
            0 <= r2 < d,
            d > 0;
}

/// Euclidean remainder by a positive modulus, matching `%` on `int`.
pub fn mod_euclid(n: i128, d: i128) -> (r: i128)
    requires
        d >= 1,
        n >= i128::MIN + d,
    ensures
        r == n as int % d as int,
        0 <= r < d,
{
    let q: i128 = div_floor(n, d);
    proof {
        vstd::arithmetic::div_mod::lemma_fundamental_div_mod(n as int, d as int);
        vstd::arithmetic::div_mod::lemma_mod_bound(n as int, d as int);
    }
    n - q * d
}

/// Clamp an `i128` into the fixed-point domain.
pub fn sat_to_i64(v: i128) -> (r: i64)
    ensures
        r == spec_sat(v as int),
{
    if v > FX_LIM as i128 {
        FX_LIM
    } else if v < -(FX_LIM as i128) {
        -FX_LIM
    } else {
        v as i64
    }
}

/// Saturating fixed-point addition.
pub fn fx_add(a: i64, b: i64) -> (r: i64)
    ensures
        r == spec_fx_add(a as int, b as int),
        fx_ok(r as int),
{
    sat_to_i64(a as i128 + b as i128)
}

/// Saturating fixed-point subtraction.
pub fn fx_sub(a: i64, b: i64) -> (r: i64)
    ensures
        r == spec_fx_sub(a as int, b as int),
        fx_ok(r as int),
{
    sat_to_i64(a as i128 - b as i128)
}

/// Saturating fixed-point multiplication.
pub fn fx_mul(a: i64, b: i64) -> (r: i64)
    ensures
        r == spec_fx_mul(a as int, b as int),
        fx_ok(r as int),
{
    proof {
        lemma_i64_prod_bounds(a as int, b as int);
    }
    let p: i128 = (a as i128) * (b as i128);
    let q: i128 = div_floor(p, FX_ONE as i128);
    sat_to_i64(q)
}

/// Saturating fixed-point division by a positive divisor.
pub fn fx_div(a: i64, b: i64) -> (r: i64)
    requires
        b > 0,
    ensures
        r == spec_fx_div(a as int, b as int),
        fx_ok(r as int),
{
    proof {
        lemma_i64_prod_bounds(a as int, FX_ONE as int);
    }
    let p: i128 = (a as i128) * (FX_ONE as i128);
    let q: i128 = div_floor(p, b as i128);
    sat_to_i64(q)
}

/// Clamp a fixed-point value into `[lo, hi]`.
pub fn fx_clamp(v: i64, lo: i64, hi: i64) -> (r: i64)
    requires
        lo <= hi,
    ensures
        r == spec_clamp(v as int, lo as int, hi as int),
{
    if v < lo {
        lo
    } else if v > hi {
        hi
    } else {
        v
    }
}

/// Floor of the square root by binary search over `[0, 2^48]`.
pub fn isqrt(n: u128) -> (r: u128)
    requires
        n < 79228162514264337593543950336,  // 2^96
    ensures
        r == spec_isqrt(n as int),
{
    let mut lo: u128 = 0;
    let mut hi: u128 = 281474976710656;  // 2^48
    proof {
        assert(281474976710656 * 281474976710656 == 79228162514264337593543950336int)
            by (nonlinear_arith);
    }
    while lo + 1 < hi
        invariant
            lo < hi,
            hi <= 281474976710656,
            lo * lo <= n,
            n < hi * hi,
        decreases hi - lo,
    {
        let mid: u128 = lo + (hi - lo) / 2;
        proof {
            assert(mid * mid <= 79228162514264337593543950336int) by (nonlinear_arith)
                requires
                    mid <= 281474976710656;
        }
        if mid * mid <= n {
            lo = mid;
        } else {
            hi = mid;
        }
    }
    proof {
        lemma_isqrt_unique(n as int, lo as int);
    }
    lo
}

/// A fixed-point product of nonnegative factors is nonnegative.
pub proof fn lemma_fx_mul_nonneg(a: int, b: int)
    requires
        a >= 0,
        b >= 0,
    ensures
        spec_fx_mul(a, b) >= 0,
{
    assert(a * b >= 0) by (nonlinear_arith)
        requires
            a >= 0,
            b >= 0;
    vstd::arithmetic::div_mod::lemma_div_pos_is_pos(a * b, FX_ONE as int);
}

/// Division of a nonnegative value by a positive divisor.
pub fn divu(n: i64, d: i64) -> (q: i64)
    requires
        n >= 0,
        d >= 1,
    ensures
        q == n as int / d as int,
        0 <= q <= n,
{
    proof {
        vstd::arithmetic::div_mod::lemma_div_pos_is_pos(n as int, d as int);
        vstd::arithmetic::div_mod::lemma_div_nonincreasing(n as int, d as int);
    }
    ((n as u64) / (d as u64)) as i64
}

/// Truncated Taylor polynomial for the sine of `x` fixed-point radians,
/// meant for `x` in `[0, FX_PI_HALF)`, clamped into `[-FX_ONE, FX_ONE]`.
pub open spec fn spec_sin_poly(x: int) -> int {
    let x2 = spec_fx_mul(x, x);
    let x3 = spec_fx_mul(x2, x);
    let x5 = spec_fx_mul(x3, x2);
    let x7 = spec_fx_mul(x5, x2);
    spec_clamp(x - x3 / 6 + x5 / 120 - x7 / 5040, -FX_ONE as int, FX_ONE as int)
}

/// Truncated Taylor polynomial for the cosine of `x` fixed-point radians,
/// meant for `x` in `[0, FX_PI_HALF)`, clamped into `[-FX_ONE, FX_ONE]`.
pub open spec fn spec_cos_poly(x: int) -> int {
    let x2 = spec_fx_mul(x, x);
    let x4 = spec_fx_mul(x2, x2);
    let x6 = spec_fx_mul(x4, x2);
    spec_clamp(FX_ONE - x2 / 2 + x4 / 24 - x6 / 720, -FX_ONE as int, FX_ONE as int)
}

/// Cosine and sine of `a` fixed-point radians: the angle is reduced into
/// `[0, FX_TWO_PI)`, split into a quarter-turn index and a remainder, and the
/// polynomials are applied to the remainder. Multiples of a quarter turn give
/// exact results: `spec_cos_sin(0) == (FX_ONE, 0)` and
/// `spec_cos_sin(FX_PI_HALF) == (0, FX_ONE)`.
pub open spec fn spec_cos_sin(a: int) -> (int, int) {
    let r = a % (FX_TWO_PI as int);
    let q = r / (FX_PI_HALF as int);
    let x = r % (FX_PI_HALF as int);
    let c = spec_cos_poly(x);
    let s = spec_sin_poly(x);
    if q == 0 {
        (c, s)
    } else if q == 1 {
        (-s, c)
    } else if q == 2 {
        (-c, -s)
    } else {
        (s, -c)
    }
}

/// Sine polynomial, evaluated on the quarter-turn remainder.
fn sin_poly(x: i64) -> (s: i64)
    requires
        0 <= x < FX_PI_HALF,
    ensures
        s == spec_sin_poly(x as int),
{
    let x2: i64 = fx_mul(x, x);
    let x3: i64 = fx_mul(x2, x);
    let x5: i64 = fx_mul(x3, x2);
    let x7: i64 = fx_mul(x5, x2);
    proof {
        lemma_fx_mul_nonneg(x as int, x as int);
        lemma_fx_mul_nonneg(x2 as int, x as int);
        lemma_fx_mul_nonneg(x3 as int, x2 as int);
        lemma_fx_mul_nonneg(x5 as int, x2 as int);
    }
    let t: i64 = x - divu(x3, 6) + divu(x5, 120) - divu(x7, 5040);
    fx_clamp(t, -FX_ONE, FX_ONE)
}

/// Cosine polynomial, evaluated on the quarter-turn remainder.
fn cos_poly(x: i64) -> (c: i64)
    requires
        0 <= x < FX_PI_HALF,
    ensures
        c == spec_cos_poly(x as int),
{
    let x2: i64 = fx_mul(x, x);
    let x4: i64 = fx_mul(x2, x2);
    let x6: i64 = fx_mul(x4, x2);
    proof {
        lemma_fx_mul_nonneg(x as int, x as int);
        lemma_fx_mul_nonneg(x2 as int, x2 as int);
        lemma_fx_mul_nonneg(x4 as int, x2 as int);
    }
    let t: i64 = FX_ONE - divu(x2, 2) + divu(x4, 24) - divu(x6, 720);
    fx_clamp(t, -FX_ONE, FX_ONE)
}

/// Cosine and sine of `a` fixed-point radians.
pub fn cos_sin(a: i64) -> (r: (i64, i64))
    ensures
        r.0 == spec_cos_sin(a as int).0,
        r.1 == spec_cos_sin(a as int).1,
        -FX_ONE <= r.0 <= FX_ONE,
        -FX_ONE <= r.1 <= FX_ONE,
{
    let red: i128 = mod_euclid(a as i128, FX_TWO_PI as i128);
    let rr: i64 = red as i64;
    let q: i64 = if rr < FX_PI_HALF {
        0
    } else if rr < 2 * FX_PI_HALF {
        1
    } else if rr < 3 * FX_PI_HALF {
        2
    } else {
        3
    };
    let x: i64 = rr - q * FX_PI_HALF;
    proof {
        vstd::arithmetic::div_mod::lemma_fundamental_div_mod_converse(
            rr as int,
            FX_PI_HALF as int,
            q as int,
            x as int,
        );
    }
    let c: i64 = cos_poly(x);
    let s: i64 = sin_poly(x);
    if q == 0 {
        (c, s)
    } else if q == 1 {
        (-s, c)
    } else if q == 2 {
        (-c, -s)
    } else {
        (s, -c)
    }
}

/// Cancel a common positive factor: `(a * d) / d == a`.
pub proof fn lemma_mul_div_cancel(a: int, d: int)
    requires
        d > 0,
    ensures
        (a * d) / d == a,
{
    vstd::arithmetic::div_mod::lemma_div_multiples_vanish(a, d);
    assert(a * d == d * a) by (nonlinear_arith);
}

/// Multiplying by one in fixed point is saturation alone.
pub proof fn lemma_fx_mul_unit(a: int)
    ensures
        spec_fx_mul(a, FX_ONE as int) == spec_sat(a),
        spec_fx_mul(FX_ONE as int, a) == spec_sat(a),
{
    lemma_mul_div_cancel(a, FX_ONE as int);
    assert(a * (FX_ONE as int) == (FX_ONE as int) * a) by (nonlinear_arith);
}

/// Multiplying by zero in fixed point gives zero.
pub proof fn lemma_fx_mul_zero(a: int)
    ensures
        spec_fx_mul(a, 0) == 0,
        spec_fx_mul(0, a) == 0,
{
    assert(a * 0 == 0) by (nonlinear_arith);
    assert(0 * a == 0) by (nonlinear_arith);
    vstd::arithmetic::div_mod::lemma_div_of0(FX_ONE as int);
}

/// The cosine and sine of a zero angle are exactly one and zero.
pub proof fn lemma_cos_sin_zero()
    ensures
        spec_cos_sin(0) == (FX_ONE as int, 0int),
{
    vstd::arithmetic::div_mod::lemma_small_mod(0, FX_TWO_PI as nat);
    vstd::arithmetic::div_mod::lemma_div_of0(FX_PI_HALF as int);
    vstd::arithmetic::div_mod::lemma_small_mod(0, FX_PI_HALF as nat);
    lemma_fx_mul_zero(0);
    vstd::arithmetic::div_mod::lemma_div_of0(6int);
    vstd::arithmetic::div_mod::lemma_div_of0(120int);
    vstd::arithmetic::div_mod::lemma_div_of0(5040int);
    vstd::arithmetic::div_mod::lemma_div_of0(2int);
    vstd::arithmetic::div_mod::lemma_div_of0(24int);
    vstd::arithmetic::div_mod::lemma_div_of0(720int);
    assert(spec_sin_poly(0) == 0);
    assert(spec_cos_poly(0) == FX_ONE);
}

/// Ninety degrees in fixed point.
pub const FX_DEG_90: i64 = 5898240;

/// Degrees to radians, both in fixed point: scaled by `FX_PI_HALF / 90`,
/// rounded toward minus infinity. An argument of exactly 90 degrees maps to
/// exactly `FX_PI_HALF`.
pub open spec fn spec_deg_to_rad(deg: int) -> int {
    spec_sat((deg * FX_PI_HALF) / (FX_DEG_90 as int))
}

/// Degrees to radians, both in fixed point.
pub fn deg_to_rad(deg: i64) -> (r: i64)
    ensures
        r == spec_deg_to_rad(deg as int),
        fx_ok(r as int),
{
    proof {
        lemma_i64_prod_bounds(deg as int, FX_PI_HALF as int);
    }
    let p: i128 = (deg as i128) * (FX_PI_HALF as i128);
    let q: i128 = div_floor(p, FX_DEG_90 as i128);
    sat_to_i64(q)
}

} // verus!
